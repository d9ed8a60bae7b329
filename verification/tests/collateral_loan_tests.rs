use mentorsmind::collateral_loan::{CollateralLoanContract, Loan, Rejection, MAX_PRICE_STALENESS_SECS};
use mentorsmind::types::AccountId;
use std::collections::HashMap;

const CONTRACT: AccountId = AccountId { id: 1 };
const ADMIN: AccountId = AccountId { id: 2 };
const BORROWER: AccountId = AccountId { id: 3 };
const LIQUIDATOR: AccountId = AccountId { id: 4 };

/// The lending pool as the host runs it: token balances, the stored loan,
/// the oracle's reading and the ledger clock.
struct Fixture {
    now: u64,
    price: i128,
    price_ts: u64,
    max_staleness: u64,
    mnt: HashMap<AccountId, i128>,
    usdc: HashMap<AccountId, i128>,
    loan: Option<Loan>,
    vault: i128,
    bad_debt: i128,
}

fn bal(m: &HashMap<AccountId, i128>, a: AccountId) -> i128 {
    *m.get(&a).unwrap_or(&0)
}

fn transfer(m: &mut HashMap<AccountId, i128>, from: AccountId, to: AccountId, amount: i128) {
    *m.entry(from).or_insert(0) -= amount;
    *m.entry(to).or_insert(0) += amount;
}

impl Fixture {
    fn setup() -> Fixture {
        CollateralLoanContract::initialize(false).unwrap();
        let mut f = Fixture {
            now: 0,
            price: 20_000,
            price_ts: 0,
            max_staleness: MAX_PRICE_STALENESS_SECS,
            mnt: HashMap::new(),
            usdc: HashMap::new(),
            loan: None,
            vault: 0,
            bad_debt: 0,
        };
        f.mnt.insert(BORROWER, 1_000);
        f.usdc.insert(CONTRACT, 10_000);
        f.usdc.insert(LIQUIDATOR, 10_000);
        f
    }

    fn open_loan(&mut self, collateral: i128, borrow: i128) -> Result<(), Rejection> {
        let loan = CollateralLoanContract::open_loan(
            self.loan.is_some(),
            collateral,
            borrow,
            self.price,
            self.price_ts,
            self.max_staleness,
            None,
            self.now,
        )?;
        transfer(&mut self.mnt, BORROWER, CONTRACT, collateral);
        transfer(&mut self.usdc, CONTRACT, BORROWER, borrow);
        self.loan = Some(loan);
        Ok(())
    }

    fn repay_loan(&mut self, amount: i128) -> Result<(), Rejection> {
        let rep = CollateralLoanContract::repay_loan(self.loan, amount, self.vault, self.now)?;
        transfer(&mut self.usdc, BORROWER, CONTRACT, rep.paid);
        self.vault = rep.vault;
        if rep.collateral_returned > 0 {
            transfer(&mut self.mnt, CONTRACT, BORROWER, rep.collateral_returned);
        }
        self.loan = rep.remaining;
        Ok(())
    }

    fn add_collateral(&mut self, amount: i128) -> Result<(), Rejection> {
        let loan = CollateralLoanContract::add_collateral(self.loan, amount)?;
        transfer(&mut self.mnt, BORROWER, CONTRACT, amount);
        self.loan = Some(loan);
        Ok(())
    }

    fn health(&self) -> Result<u32, Rejection> {
        CollateralLoanContract::get_health_factor(self.loan, self.now, self.price, self.price_ts, self.max_staleness)
    }

    fn liquidate(&mut self) -> Result<(), Rejection> {
        let liq = CollateralLoanContract::liquidate(self.loan, self.price, self.price_ts, self.max_staleness, self.now)?;
        transfer(&mut self.usdc, LIQUIDATOR, CONTRACT, liq.debt_repaid);
        transfer(&mut self.mnt, CONTRACT, LIQUIDATOR, liq.collateral_to_liquidator);
        if liq.protocol_fee > 0 {
            transfer(&mut self.mnt, CONTRACT, ADMIN, liq.protocol_fee);
        }
        self.loan = None;
        Ok(())
    }

    fn is_oracle_fresh(&self) -> bool {
        CollateralLoanContract::is_oracle_fresh(self.price, self.price_ts, self.max_staleness, self.now)
    }
}

#[test]
fn test_open_loan() {
    let mut f = Fixture::setup();
    f.open_loan(100, 120).unwrap();
    let loan = f.loan.unwrap();
    assert_eq!(loan.collateral_amount, 100);
    assert_eq!(loan.debt_amount, 120);
    assert_eq!(bal(&f.mnt, BORROWER), 900);
    assert_eq!(bal(&f.mnt, CONTRACT), 100);
    assert_eq!(bal(&f.usdc, BORROWER), 120);
    assert_eq!(bal(&f.usdc, CONTRACT), 9_880);
    assert_eq!(f.health(), Ok(16_666));
}

#[test]
fn test_repay_partial_and_full() {
    let mut f = Fixture::setup();
    f.open_loan(100, 120).unwrap();
    f.repay_loan(20).unwrap();
    assert_eq!(f.loan.unwrap().debt_amount, 100);
    assert_eq!(bal(&f.usdc, BORROWER), 100);
    // an overpayment only repays what is outstanding
    f.repay_loan(200).unwrap();
    assert_eq!(f.loan, None);
    assert_eq!(bal(&f.mnt, BORROWER), 1_000);
    assert_eq!(bal(&f.mnt, CONTRACT), 0);
}

#[test]
fn test_add_collateral() {
    let mut f = Fixture::setup();
    f.open_loan(100, 120).unwrap();
    f.add_collateral(50).unwrap();
    assert_eq!(f.loan.unwrap().collateral_amount, 150);
    assert_eq!(f.health(), Ok(25_000));
}

#[test]
fn test_liquidation_trigger() {
    let mut f = Fixture::setup();
    f.open_loan(100, 120).unwrap();
    f.price = 10_000;
    assert_eq!(f.health(), Ok(8_333));
    f.liquidate().unwrap();
    assert_eq!(f.loan, None);
}

#[test]
fn test_liquidator_receives_full_collateral_minus_fee() {
    let mut f = Fixture::setup();
    f.open_loan(100, 120).unwrap();
    f.price = 10_000;
    let mnt_before = bal(&f.mnt, LIQUIDATOR);
    let usdc_before = bal(&f.usdc, LIQUIDATOR);
    f.liquidate().unwrap();
    assert_eq!(bal(&f.mnt, LIQUIDATOR) - mnt_before, 95);
    assert_eq!(usdc_before - bal(&f.usdc, LIQUIDATOR), 120);
}

#[test]
fn test_liquidation_protocol_fee_to_treasury() {
    let mut f = Fixture::setup();
    f.open_loan(100, 120).unwrap();
    f.price = 10_000;
    let admin_before = bal(&f.mnt, ADMIN);
    f.liquidate().unwrap();
    assert_eq!(bal(&f.mnt, ADMIN) - admin_before, 5);
    assert_eq!(bal(&f.mnt, CONTRACT), 0);
}

#[test]
fn test_liquidation_restores_usdc_to_pool() {
    let mut f = Fixture::setup();
    f.open_loan(100, 120).unwrap();
    assert_eq!(bal(&f.usdc, CONTRACT), 9_880);
    f.price = 10_000;
    f.liquidate().unwrap();
    assert_eq!(bal(&f.usdc, CONTRACT), 10_000);
}

#[test]
fn test_total_bad_debt_zero_after_liquidation() {
    let mut f = Fixture::setup();
    assert_eq!(f.bad_debt, 0);
    f.open_loan(100, 120).unwrap();
    assert_eq!(f.bad_debt, 0);
    f.price = 10_000;
    f.liquidate().unwrap();
    assert_eq!(f.bad_debt, 0);
    assert_eq!(f.loan, None);
}

#[test]
fn test_get_liquidation_preview() {
    let mut f = Fixture::setup();
    assert_eq!(CollateralLoanContract::get_liquidation_preview(f.loan, f.now), (0, 0, 0));
    f.open_loan(100, 120).unwrap();
    assert_eq!(CollateralLoanContract::get_liquidation_preview(f.loan, f.now), (95, 120, 5));
    f.price = 10_000;
    assert_eq!(CollateralLoanContract::get_liquidation_preview(f.loan, f.now), (95, 120, 5));
}

#[test]
fn test_is_oracle_fresh_true_when_price_set() {
    let f = Fixture::setup();
    assert!(f.is_oracle_fresh());
}

#[test]
fn test_open_loan_rejects_stale_price_at_3601() {
    let mut f = Fixture::setup();
    f.price_ts = 0;
    f.now = 3601;
    assert!(!f.is_oracle_fresh());
    let result = f.open_loan(100, 120);
    assert!(result.is_err());
}

#[test]
fn test_open_loan_accepts_fresh_price_at_3600() {
    let mut f = Fixture::setup();
    f.price_ts = 0;
    f.now = 3600;
    assert!(f.is_oracle_fresh());
    f.open_loan(100, 120).unwrap();
    assert_eq!(f.loan.unwrap().debt_amount, 120);
}

#[test]
fn test_liquidate_rejects_stale_price() {
    let mut f = Fixture::setup();
    f.open_loan(100, 120).unwrap();
    f.price = 10_000;
    f.price_ts = 1;
    f.now = 3602;
    assert!(!f.is_oracle_fresh());
    let result = f.liquidate();
    assert!(result.is_err());
}

#[test]
fn test_admin_set_max_price_staleness_and_uses_it() {
    let mut f = Fixture::setup();
    f.max_staleness = CollateralLoanContract::set_max_price_staleness(ADMIN, ADMIN, 600).unwrap();
    f.price_ts = 0;
    f.now = 601;
    assert!(!f.is_oracle_fresh());
    let result = f.open_loan(100, 120);
    assert!(result.is_err());
    f.now = 600;
    assert!(f.is_oracle_fresh());
    f.open_loan(100, 120).unwrap();
}

#[test]
fn test_get_health_factor_rejects_stale_price() {
    let mut f = Fixture::setup();
    f.open_loan(100, 120).unwrap();
    f.now = 3601;
    let result = f.health();
    assert!(result.is_err());
}

#[test]
fn compute_ratio_example() {
    // 100 MNT at 2.00 USDC against 120 USDC of debt: 200 / 120 = 166.66%
    assert_eq!(CollateralLoanContract::compute_ratio_bps(100, 120, 20_000), 16_666);
    assert_eq!(CollateralLoanContract::compute_ratio_bps(100, 0, 20_000), i128::MAX);
}

#[test]
fn open_loan_refusals() {
    let mut f = Fixture::setup();
    assert_eq!(f.open_loan(0, 10), Err(Rejection::InvalidAmount));
    assert_eq!(f.open_loan(100, 140), Err(Rejection::InsufficientCollateralization));
    f.price = 0;
    assert_eq!(f.open_loan(100, 10), Err(Rejection::InvalidOraclePrice));
    f.price = 20_000;
    f.open_loan(100, 120).unwrap();
    assert_eq!(f.open_loan(100, 120), Err(Rejection::LoanAlreadyExists));
}

#[test]
fn interest_accrues_per_whole_day() {
    let loan = Loan { collateral_amount: 1_000, debt_amount: 36_500, borrowed_at: 0, interest_rate_bps: 1_000 };
    // 10% a year on 36 500 is 10 a day
    assert_eq!(CollateralLoanContract::get_current_debt(Some(loan), 86_399), 36_500);
    assert_eq!(CollateralLoanContract::get_current_debt(Some(loan), 86_400), 36_510);
    assert_eq!(CollateralLoanContract::get_current_debt(Some(loan), 3 * 86_400), 36_530);
    assert_eq!(CollateralLoanContract::get_current_debt(None, 10), 0);
}

#[test]
fn partial_repayment_pays_interest_first() {
    let loan = Loan { collateral_amount: 100_000, debt_amount: 36_500, borrowed_at: 0, interest_rate_bps: 1_000 };
    let rep = CollateralLoanContract::repay_loan(Some(loan), 25, 7, 2 * 86_400).unwrap();
    assert_eq!(rep.paid, 25);
    assert_eq!(rep.interest_paid, 20);
    assert_eq!(rep.vault, 27);
    let rest = rep.remaining.unwrap();
    assert_eq!(rest.debt_amount, 36_495);
    assert_eq!(rest.borrowed_at, 2 * 86_400);
    assert_eq!(rep.collateral_returned, 0);
}

#[test]
fn healthy_loans_are_not_liquidated() {
    let mut f = Fixture::setup();
    f.open_loan(100, 120).unwrap();
    assert_eq!(f.liquidate(), Err(Rejection::LoanHealthy));
    assert_eq!(CollateralLoanContract::liquidate(None, 1, 0, 10, 0).unwrap_err(), Rejection::LoanNotFound);
}

#[test]
fn staleness_setting_rules() {
    assert_eq!(CollateralLoanContract::set_max_price_staleness(ADMIN, BORROWER, 60), Err(Rejection::Unauthorized));
    assert_eq!(CollateralLoanContract::set_max_price_staleness(ADMIN, ADMIN, 0), Err(Rejection::InvalidStaleness));
}

#[test]
fn at_risk_positions_below_140_percent() {
    let borrowers = vec![AccountId { id: 10 }, AccountId { id: 11 }, AccountId { id: 12 }, AccountId { id: 13 }];
    let healths = vec![Some(13_999), Some(14_000), None, Some(500)];
    let at_risk = CollateralLoanContract::check_at_risk_positions(&borrowers, &healths);
    assert_eq!(at_risk, vec![(AccountId { id: 10 }, 13_999), (AccountId { id: 13 }, 500)]);
}

#[test]
fn collateral_ratio_rises_with_collateral_and_price_and_falls_with_debt() {
    let base = CollateralLoanContract::compute_ratio_bps(100, 120, 10_000);
    assert_eq!(base, 8_333);
    assert!(CollateralLoanContract::compute_ratio_bps(150, 120, 10_000) >= base);
    assert!(CollateralLoanContract::compute_ratio_bps(100, 120, 20_000) >= base);
    assert!(CollateralLoanContract::compute_ratio_bps(100, 60, 10_000) >= base);
}
