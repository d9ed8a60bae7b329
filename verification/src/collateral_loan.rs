//! Over-collateralised USDC loans against MNT collateral: opening,
//! repayment with simple interest, top-ups, liquidation and the oracle
//! freshness rules they all depend on.
use vstd::prelude::*;
use crate::types::{AccountId, tdiv, sat_sub, i128_div_pos};

verus! {

pub const MIN_COLLATERAL_RATIO_BPS: i128 = 15000;
pub const LIQUIDATION_THRESHOLD_BPS: i128 = 12000;
pub const LIQUIDATOR_BONUS_BPS: i128 = 500;
pub const BPS_DENOMINATOR: i128 = 10000;
pub const PRICE_SCALE: i128 = 10000;
pub const DEFAULT_INTEREST_RATE_BPS: u32 = 1000;
pub const SECONDS_PER_DAY: u64 = 86400;
pub const MAX_PRICE_STALENESS_SECS: u64 = 3600;
pub const AT_RISK_THRESHOLD_BPS: i128 = 14000;

#[derive(Clone, Copy, Debug, PartialEq, Eq, Structural)]
pub struct Loan {
    pub collateral_amount: i128,
    pub debt_amount: i128,
    pub borrowed_at: u64,
    pub interest_rate_bps: u32,
}

/// Why a loan request is refused (each aborts the transaction).
#[derive(Clone, Copy, Debug, PartialEq, Eq, Structural)]
pub enum Rejection {
    AlreadyInitialized,
    InvalidAmount,
    LoanAlreadyExists,
    LoanNotFound,
    LoanAlreadyRepaid,
    InsufficientCollateralization,
    InvalidOraclePrice,
    OraclePriceStale,
    LoanHealthy,
    FeeExceedsCollateral,
    Overflow,
    Unauthorized,
    InvalidStaleness,
}

/// The message a `Rejection` aborts the transaction with.
pub open spec fn rejection_message(r: Rejection) -> Seq<char> {
    match r {
        Rejection::AlreadyInitialized => "already initialized"@,
        Rejection::InvalidAmount => "invalid amount"@,
        Rejection::LoanAlreadyExists => "loan already exists"@,
        Rejection::LoanNotFound => "loan not found"@,
        Rejection::LoanAlreadyRepaid => "loan already repaid"@,
        Rejection::InsufficientCollateralization => "insufficient collateralization"@,
        Rejection::InvalidOraclePrice => "invalid oracle price"@,
        Rejection::OraclePriceStale => "OraclePriceStale"@,
        Rejection::LoanHealthy => "loan healthy"@,
        Rejection::FeeExceedsCollateral => "fee exceeds collateral"@,
        Rejection::Overflow => "overflow"@,
        Rejection::Unauthorized => "unauthorized"@,
        Rejection::InvalidStaleness => "invalid staleness"@,
    }
}

impl Rejection {
    /// The message the transaction aborts with.
    pub fn message(&self) -> (m: &'static str)
        ensures
            m@ == rejection_message(*self),
    {
        match self {
            Rejection::AlreadyInitialized => "already initialized",
            Rejection::InvalidAmount => "invalid amount",
            Rejection::LoanAlreadyExists => "loan already exists",
            Rejection::LoanNotFound => "loan not found",
            Rejection::LoanAlreadyRepaid => "loan already repaid",
            Rejection::InsufficientCollateralization => "insufficient collateralization",
            Rejection::InvalidOraclePrice => "invalid oracle price",
            Rejection::OraclePriceStale => "OraclePriceStale",
            Rejection::LoanHealthy => "loan healthy",
            Rejection::FeeExceedsCollateral => "fee exceeds collateral",
            Rejection::Overflow => "overflow",
            Rejection::Unauthorized => "unauthorized",
            Rejection::InvalidStaleness => "invalid staleness",
        }
    }
}

/// Whether the collateral ratio of a position can be computed without
/// overflow.
pub open spec fn ratio_defined(collateral: int, debt: int, price: int) -> bool {
    debt <= 0 || {
        &&& i128::MIN <= collateral * price <= i128::MAX
        &&& i128::MIN <= tdiv(collateral * price, PRICE_SCALE as int) * BPS_DENOMINATOR <= i128::MAX
    }
}

/// Collateral value over debt, in basis points (`i128::MAX` without debt).
pub open spec fn ratio_bps(collateral: int, debt: int, price: int) -> int {
    if debt <= 0 {
        i128::MAX as int
    } else {
        tdiv(tdiv(collateral * price, PRICE_SCALE as int) * BPS_DENOMINATOR, debt)
    }
}

fn checked_ratio_bps(collateral_amount: i128, debt_amount: i128, price: i128) -> (r: Option<i128>)
    ensures
        r is Some <==> ratio_defined(collateral_amount as int, debt_amount as int, price as int),
        r matches Some(v) ==> v == ratio_bps(collateral_amount as int, debt_amount as int, price as int),
{
    if debt_amount <= 0 {
        return Some(i128::MAX);
    }
    let value = match collateral_amount.checked_mul(price) {
        Some(v) => v,
        None => return None,
    };
    let value = i128_div_pos(value, PRICE_SCALE);
    let scaled = match value.checked_mul(BPS_DENOMINATOR) {
        Some(v) => v,
        None => return None,
    };
    Some(i128_div_pos(scaled, debt_amount))
}

/// Simple interest accrued on `loan` after `days` whole days, with the
/// contract's overflow fallbacks (an overflowing product counts as zero).
pub open spec fn accrued_interest(debt: i128, rate_bps: u32, days: int) -> int {
    let a = debt * rate_bps;
    let a1 = if a > i128::MAX { 0 } else { a };
    let b = a1 * days;
    let b1 = if b > i128::MAX { 0 } else { b };
    b1 / (365 * BPS_DENOMINATOR)
}

/// Outstanding debt of a loan at `now`: principal plus simple interest for
/// the whole days elapsed (saturating at `i128::MAX`).
pub open spec fn debt_at(loan: Option<Loan>, now: u64) -> int {
    match loan {
        None => 0,
        Some(l) => if l.debt_amount <= 0 {
            0
        } else {
            let days = sat_sub(now, l.borrowed_at) / SECONDS_PER_DAY;
            let total = l.debt_amount + accrued_interest(l.debt_amount, l.interest_rate_bps, days as int);
            if total > i128::MAX { i128::MAX as int } else { total }
        },
    }
}

/// Whether an oracle reading is usable: positive and no older than
/// `max_staleness` seconds.
pub open spec fn price_usable(price: i128, last_update: u64, max_staleness: u64, now: u64) -> bool {
    price > 0 && sat_sub(now, last_update) <= max_staleness
}

/// Validate an oracle reading of the MNT price.
pub fn check_mnt_price(price: i128, last_update: u64, max_staleness: u64, now: u64) -> (r: Result<i128, Rejection>)
    ensures
        price <= 0 ==> r == Err::<i128, Rejection>(Rejection::InvalidOraclePrice),
        price > 0 && sat_sub(now, last_update) > max_staleness ==> r == Err::<i128, Rejection>(Rejection::OraclePriceStale),
        price_usable(price, last_update, max_staleness, now) ==> r == Ok::<i128, Rejection>(price),
{
    if price <= 0 {
        return Err(Rejection::InvalidOraclePrice);
    }
    if now.saturating_sub(last_update) > max_staleness {
        return Err(Rejection::OraclePriceStale);
    }
    Ok(price)
}

/// The health factor reported for a position: its collateral ratio at the
/// current debt, clamped into `u32`; 0 without a loan, `u32::MAX` without debt.
pub open spec fn health_of(loan: Option<Loan>, now: u64, price: i128) -> int {
    match loan {
        None => 0,
        Some(l) => {
            let debt = debt_at(loan, now);
            if debt <= 0 {
                u32::MAX as int
            } else {
                let r = ratio_bps(l.collateral_amount as int, debt, price as int);
                if r < 0 { 0 } else if r > u32::MAX { u32::MAX as int } else { r }
            }
        },
    }
}

pub open spec fn health_defined(loan: Option<Loan>, now: u64, price: i128) -> bool {
    match loan {
        None => true,
        Some(l) => ratio_defined(l.collateral_amount as int, debt_at(loan, now), price as int),
    }
}

/// The effect of a repayment.
#[derive(Clone, Copy, Debug, PartialEq, Eq, Structural)]
pub struct Repayment {
    /// USDC taken from the borrower.
    pub paid: i128,
    /// Interest part of the payment, credited to the interest vault.
    pub interest_paid: i128,
    /// The interest vault after the credit.
    pub vault: i128,
    /// The loan left after a partial repayment; `None` once fully repaid
    /// (the loan is removed and its collateral returned).
    pub remaining: Option<Loan>,
    /// Collateral returned to the borrower.
    pub collateral_returned: i128,
}

/// The protocol fee kept from a liquidated position's collateral (5%).
pub open spec fn liquidation_fee(collateral: int) -> int {
    tdiv(collateral * LIQUIDATOR_BONUS_BPS, BPS_DENOMINATOR as int)
}

/// The transfers a liquidation makes.
#[derive(Clone, Copy, Debug, PartialEq, Eq, Structural)]
pub struct Liquidation {
    /// USDC the liquidator repays on the borrower's behalf.
    pub debt_repaid: i128,
    /// Collateral kept as protocol fee (sent to the admin when positive).
    pub protocol_fee: i128,
    /// Collateral handed to the liquidator.
    pub collateral_to_liquidator: i128,
}

/// The outcome of liquidating `loan` at the oracle reading (`price`,
/// `last_update`): refused without a loan, without debt, on an unusable or
/// overflowing price, on a healthy loan (health at least 120%) and when the
/// fee arithmetic leaves `i128`; otherwise the liquidator repays the current
/// debt and takes the collateral less the 5% protocol fee.
pub open spec fn liquidation_result(loan: Option<Loan>, price: i128, last_update: u64, max_staleness: u64, now: u64) -> Result<Liquidation, Rejection> {
    match loan {
        None => Err(Rejection::LoanNotFound),
        Some(l) => if l.debt_amount <= 0 {
            Err(Rejection::LoanAlreadyRepaid)
        } else if price <= 0 {
            Err(Rejection::InvalidOraclePrice)
        } else if sat_sub(now, last_update) > max_staleness {
            Err(Rejection::OraclePriceStale)
        } else if !health_defined(loan, now, price) {
            Err(Rejection::Overflow)
        } else if health_of(loan, now, price) >= LIQUIDATION_THRESHOLD_BPS {
            Err(Rejection::LoanHealthy)
        } else if !(i128::MIN <= l.collateral_amount * LIQUIDATOR_BONUS_BPS <= i128::MAX) {
            Err(Rejection::Overflow)
        } else if !(i128::MIN <= l.collateral_amount - liquidation_fee(l.collateral_amount as int) <= i128::MAX) {
            Err(Rejection::FeeExceedsCollateral)
        } else {
            Ok(Liquidation {
                debt_repaid: debt_at(loan, now) as i128,
                protocol_fee: liquidation_fee(l.collateral_amount as int) as i128,
                collateral_to_liquidator: (l.collateral_amount - liquidation_fee(l.collateral_amount as int)) as i128,
            })
        },
    }
}

/// What the liquidation preview reports: (collateral to the liquidator,
/// debt to repay, protocol fee); zeros without an outstanding loan.
pub open spec fn liquidation_preview(loan: Option<Loan>, now: u64) -> (int, int, int) {
    match loan {
        None => (0, 0, 0),
        Some(l) => if l.debt_amount <= 0 {
            (0, 0, 0)
        } else {
            let fee = liquidation_fee(l.collateral_amount as int);
            let rest = l.collateral_amount - fee;
            (if i128::MIN <= rest <= i128::MAX { rest } else { 0 }, debt_at(loan, now), fee)
        },
    }
}

/// The at-risk entries of a watch-list page, in watch-list order.
pub open spec fn at_risk_spec(borrowers: Seq<AccountId>, healths: Seq<Option<u32>>) -> Seq<(AccountId, u32)>
    decreases borrowers.len(),
{
    if borrowers.len() == 0 || healths.len() == 0 {
        Seq::empty()
    } else {
        let prev = at_risk_spec(borrowers.drop_last(), healths.drop_last());
        match healths.last() {
            Some(h) => if (h as int) < AT_RISK_THRESHOLD_BPS { prev.push((borrowers.last(), h)) } else { prev },
            None => prev,
        }
    }
}

/// The collateral-loan contract's entry points.
pub struct CollateralLoanContract;

impl CollateralLoanContract {
    /// The contract is set up once.
    pub fn initialize(already_initialized: bool) -> (r: Result<(), Rejection>)
        ensures
            already_initialized <==> r == Err::<(), Rejection>(Rejection::AlreadyInitialized),
            !already_initialized <==> r is Ok,
    {
        if already_initialized { Err(Rejection::AlreadyInitialized) } else { Ok(()) }
    }

    /// The collateral ratio of a position, in basis points: the collateral's
    /// value at `price` (scaled by `PRICE_SCALE`) times 10 000 over the debt.
    pub fn compute_ratio_bps(collateral_amount: i128, debt_amount: i128, price: i128) -> (ratio: i128)
        requires
            ratio_defined(collateral_amount as int, debt_amount as int, price as int),
        ensures
            ratio == ratio_bps(collateral_amount as int, debt_amount as int, price as int),
    {
        match checked_ratio_bps(collateral_amount, debt_amount, price) {
            Some(v) => v,
            None => 0,
        }
    }

    /// Current debt including interest accrued since the loan was taken.
    pub fn get_current_debt(loan: Option<Loan>, now: u64) -> (debt: i128)
        ensures
            debt == debt_at(loan, now),
    {
        let l = match loan {
            Some(l) => l,
            None => return 0,
        };
        if l.debt_amount <= 0 {
            return 0;
        }
        let elapsed = now.saturating_sub(l.borrowed_at);
        let days: u64 = elapsed / SECONDS_PER_DAY;
        let a: i128 = match l.debt_amount.checked_mul(l.interest_rate_bps as i128) {
            Some(v) => v,
            None => 0,
        };
        assert(a >= 0) by (nonlinear_arith)
            requires
                l.debt_amount > 0,
                a == l.debt_amount * l.interest_rate_bps || a == 0;
        let b: i128 = match a.checked_mul(days as i128) {
            Some(v) => v,
            None => 0,
        };
        assert(b >= 0) by (nonlinear_arith)
            requires
                a >= 0,
                b == a * days || b == 0;
        let interest = b / (365 * BPS_DENOMINATOR);
        match l.debt_amount.checked_add(interest) {
            Some(v) => v,
            None => i128::MAX,
        }
    }

    /// Whether the oracle's latest reading is fresh enough to lend against.
    pub fn is_oracle_fresh(price: i128, last_update: u64, max_staleness: u64, now: u64) -> (fresh: bool)
        ensures
            fresh == price_usable(price, last_update, max_staleness, now),
    {
        price > 0 && now.saturating_sub(last_update) <= max_staleness
    }

    /// Health factor of a position: its collateral ratio in basis points at
    /// the current debt and the oracle's price, clamped into `u32`; 0 without
    /// a loan and `u32::MAX` without debt.  With debt outstanding the oracle
    /// reading must be usable.
    pub fn get_health_factor(loan: Option<Loan>, now: u64, price: i128, last_update: u64, max_staleness: u64) -> (r: Result<u32, Rejection>)
        ensures
            !(loan is Some && debt_at(loan, now) > 0) ==> r == Ok::<u32, Rejection>(health_of(loan, now, price) as u32),
            loan is Some && debt_at(loan, now) > 0 && price <= 0 ==> r == Err::<u32, Rejection>(Rejection::InvalidOraclePrice),
            loan is Some && debt_at(loan, now) > 0 && price > 0 && sat_sub(now, last_update) > max_staleness
                ==> r == Err::<u32, Rejection>(Rejection::OraclePriceStale),
            loan is Some && debt_at(loan, now) > 0 && price_usable(price, last_update, max_staleness, now) ==> {
                &&& health_defined(loan, now, price) ==> r == Ok::<u32, Rejection>(health_of(loan, now, price) as u32)
                &&& !health_defined(loan, now, price) ==> r == Err::<u32, Rejection>(Rejection::Overflow)
            },
    {
        let l = match loan {
            Some(l) => l,
            None => return Ok(0),
        };
        let debt = Self::get_current_debt(loan, now);
        if debt <= 0 {
            return Ok(u32::MAX);
        }
        let price = check_mnt_price(price, last_update, max_staleness, now)?;
        let ratio = match checked_ratio_bps(l.collateral_amount, debt, price) {
            Some(r) => r,
            None => return Err(Rejection::Overflow),
        };
        if ratio < 0 {
            Ok(0)
        } else if ratio > u32::MAX as i128 {
            Ok(u32::MAX)
        } else {
            Ok(ratio as u32)
        }
    }

    /// Open a loan of `borrow_amount` USDC against `collateral_amount` MNT.
    ///
    /// The position must be collateralised at 150% or more at the validated
    /// oracle price; the loan records the configured interest rate (10% APR
    /// when none is configured) and starts accruing at `now`.
    pub fn open_loan(
        loan_exists: bool,
        collateral_amount: i128,
        borrow_amount: i128,
        price: i128,
        last_update: u64,
        max_staleness: u64,
        interest_rate_bps: Option<u32>,
        now: u64,
    ) -> (r: Result<Loan, Rejection>)
        ensures
            (collateral_amount <= 0 || borrow_amount <= 0) ==> r == Err::<Loan, Rejection>(Rejection::InvalidAmount),
            collateral_amount > 0 && borrow_amount > 0 && loan_exists ==> r == Err::<Loan, Rejection>(Rejection::LoanAlreadyExists),
            collateral_amount > 0 && borrow_amount > 0 && !loan_exists && price <= 0
                ==> r == Err::<Loan, Rejection>(Rejection::InvalidOraclePrice),
            collateral_amount > 0 && borrow_amount > 0 && !loan_exists && price > 0 && sat_sub(now, last_update) > max_staleness
                ==> r == Err::<Loan, Rejection>(Rejection::OraclePriceStale),
            collateral_amount > 0 && borrow_amount > 0 && !loan_exists && price_usable(price, last_update, max_staleness, now)
                && !ratio_defined(collateral_amount as int, borrow_amount as int, price as int)
                ==> r == Err::<Loan, Rejection>(Rejection::Overflow),
            collateral_amount > 0 && borrow_amount > 0 && !loan_exists && price_usable(price, last_update, max_staleness, now)
                && ratio_defined(collateral_amount as int, borrow_amount as int, price as int)
                && ratio_bps(collateral_amount as int, borrow_amount as int, price as int) < MIN_COLLATERAL_RATIO_BPS
                ==> r == Err::<Loan, Rejection>(Rejection::InsufficientCollateralization),
            r is Ok <==> {
                &&& collateral_amount > 0 && borrow_amount > 0 && !loan_exists
                &&& price_usable(price, last_update, max_staleness, now)
                &&& ratio_defined(collateral_amount as int, borrow_amount as int, price as int)
                &&& ratio_bps(collateral_amount as int, borrow_amount as int, price as int) >= MIN_COLLATERAL_RATIO_BPS
            },
            r matches Ok(loan) ==> loan == (Loan {
                collateral_amount,
                debt_amount: borrow_amount,
                borrowed_at: now,
                interest_rate_bps: match interest_rate_bps { Some(b) => b, None => DEFAULT_INTEREST_RATE_BPS },
            }),
    {
        if collateral_amount <= 0 || borrow_amount <= 0 {
            return Err(Rejection::InvalidAmount);
        }
        if loan_exists {
            return Err(Rejection::LoanAlreadyExists);
        }
        let price = check_mnt_price(price, last_update, max_staleness, now)?;
        let ratio = match checked_ratio_bps(collateral_amount, borrow_amount, price) {
            Some(r) => r,
            None => return Err(Rejection::Overflow),
        };
        if ratio < MIN_COLLATERAL_RATIO_BPS {
            return Err(Rejection::InsufficientCollateralization);
        }
        let rate = match interest_rate_bps {
            Some(b) => b,
            None => DEFAULT_INTEREST_RATE_BPS,
        };
        Ok(Loan { collateral_amount, debt_amount: borrow_amount, borrowed_at: now, interest_rate_bps: rate })
    }

    /// Repay up to `amount` of a loan at `now`.
    ///
    /// A payment is capped at the current debt.  Paying the whole debt closes
    /// the loan and returns its collateral.  A partial payment settles accrued
    /// interest first; the rest of the debt, accrued interest included, keeps
    /// accruing from `now`.  The interest part is credited to `vault`.
    pub fn repay_loan(loan: Option<Loan>, amount: i128, vault: i128, now: u64) -> (r: Result<Repayment, Rejection>)
        ensures
            amount <= 0 ==> r == Err::<Repayment, Rejection>(Rejection::InvalidAmount),
            amount > 0 && loan is None ==> r == Err::<Repayment, Rejection>(Rejection::LoanNotFound),
            loan matches Some(l) && amount > 0 && l.debt_amount <= 0 ==> r == Err::<Repayment, Rejection>(Rejection::LoanAlreadyRepaid),
            r matches Ok(rep) ==> match loan {
                Some(l) => {
                    let current = debt_at(loan, now);
                    let accrued = current - l.debt_amount;
                    let paid = if amount < current { amount as int } else { current };
                    let interest = if paid < accrued { paid } else { accrued };
                    &&& rep.paid == paid
                    &&& rep.interest_paid == interest
                    &&& rep.vault == vault + interest
                    &&& amount >= current ==> rep.remaining is None && rep.collateral_returned == l.collateral_amount
                    &&& amount < current ==> rep.collateral_returned == 0 && rep.remaining == Some(Loan {
                            debt_amount: (current - amount) as i128,
                            borrowed_at: now,
                            ..l
                        })
                },
                None => false,
            },
            match loan {
                Some(l) => amount > 0 && l.debt_amount > 0 ==> (r is Ok <==> {
                    let current = debt_at(loan, now);
                    let accrued = current - l.debt_amount;
                    let paid = if amount < current { amount as int } else { current };
                    let interest = if paid < accrued { paid } else { accrued };
                    i128::MIN <= vault + interest <= i128::MAX
                }),
                None => true,
            },
    {
        if amount <= 0 {
            return Err(Rejection::InvalidAmount);
        }
        let l = match loan {
            Some(l) => l,
            None => return Err(Rejection::LoanNotFound),
        };
        if l.debt_amount <= 0 {
            return Err(Rejection::LoanAlreadyRepaid);
        }
        let current = Self::get_current_debt(loan, now);
        let accrued = current - l.debt_amount;
        let paid = if amount < current { amount } else { current };
        let interest = if paid < accrued { paid } else { accrued };
        let new_vault = match vault.checked_add(interest) {
            Some(v) => v,
            None => return Err(Rejection::Overflow),
        };
        if amount >= current {
            Ok(Repayment { paid, interest_paid: interest, vault: new_vault, remaining: None, collateral_returned: l.collateral_amount })
        } else {
            let remaining = Loan { debt_amount: current - amount, borrowed_at: now, ..l };
            Ok(Repayment { paid, interest_paid: interest, vault: new_vault, remaining: Some(remaining), collateral_returned: 0 })
        }
    }

    /// Add `amount` of collateral to an existing loan.
    pub fn add_collateral(loan: Option<Loan>, amount: i128) -> (r: Result<Loan, Rejection>)
        ensures
            amount <= 0 ==> r == Err::<Loan, Rejection>(Rejection::InvalidAmount),
            amount > 0 && loan is None ==> r == Err::<Loan, Rejection>(Rejection::LoanNotFound),
            match loan {
                Some(l) => amount > 0 ==> (if l.collateral_amount + amount > i128::MAX {
                        r == Err::<Loan, Rejection>(Rejection::Overflow)
                    } else {
                        r == Ok::<Loan, Rejection>(Loan { collateral_amount: (l.collateral_amount + amount) as i128, ..l })
                    }),
                None => true,
            },
    {
        if amount <= 0 {
            return Err(Rejection::InvalidAmount);
        }
        let mut l = match loan {
            Some(l) => l,
            None => return Err(Rejection::LoanNotFound),
        };
        l.collateral_amount = match l.collateral_amount.checked_add(amount) {
            Some(c) => c,
            None => return Err(Rejection::Overflow),
        };
        Ok(l)
    }

    /// Liquidate an unhealthy loan (health below 120%) at a validated price.
    pub fn liquidate(loan: Option<Loan>, price: i128, last_update: u64, max_staleness: u64, now: u64) -> (r: Result<Liquidation, Rejection>)
        ensures
            r == liquidation_result(loan, price, last_update, max_staleness, now),
            loan is None ==> r == Err::<Liquidation, Rejection>(Rejection::LoanNotFound),
            loan matches Some(l) && l.debt_amount <= 0 ==> r == Err::<Liquidation, Rejection>(Rejection::LoanAlreadyRepaid),
            loan matches Some(l) && l.debt_amount > 0 && !price_usable(price, last_update, max_staleness, now) ==> r is Err,
            loan matches Some(l) && l.debt_amount > 0 && price_usable(price, last_update, max_staleness, now)
                && health_defined(loan, now, price) && health_of(loan, now, price) >= LIQUIDATION_THRESHOLD_BPS
                ==> r == Err::<Liquidation, Rejection>(Rejection::LoanHealthy),
            // An unhealthy loan at a usable price is liquidated whenever the
            // fee arithmetic fits.
            match loan {
                Some(l) => (l.debt_amount > 0 && price_usable(price, last_update, max_staleness, now)
                    && health_defined(loan, now, price) && health_of(loan, now, price) < LIQUIDATION_THRESHOLD_BPS
                    && i128::MIN <= l.collateral_amount * LIQUIDATOR_BONUS_BPS <= i128::MAX
                    && i128::MIN <= l.collateral_amount - liquidation_fee(l.collateral_amount as int) <= i128::MAX)
                    ==> r == Ok::<Liquidation, Rejection>(Liquidation {
                        debt_repaid: debt_at(loan, now) as i128,
                        protocol_fee: liquidation_fee(l.collateral_amount as int) as i128,
                        collateral_to_liquidator: (l.collateral_amount - liquidation_fee(l.collateral_amount as int)) as i128,
                    }),
                None => true,
            },
            r == Err::<Liquidation, Rejection>(Rejection::FeeExceedsCollateral) <==> match loan {
                Some(l) => l.debt_amount > 0 && price_usable(price, last_update, max_staleness, now)
                    && health_defined(loan, now, price) && health_of(loan, now, price) < LIQUIDATION_THRESHOLD_BPS
                    && i128::MIN <= l.collateral_amount * LIQUIDATOR_BONUS_BPS <= i128::MAX
                    && !(i128::MIN <= l.collateral_amount - liquidation_fee(l.collateral_amount as int) <= i128::MAX),
                None => false,
            },
            r == Err::<Liquidation, Rejection>(Rejection::Overflow) <==> match loan {
                Some(l) => l.debt_amount > 0 && price_usable(price, last_update, max_staleness, now) && (
                    !health_defined(loan, now, price)
                    || (health_of(loan, now, price) < LIQUIDATION_THRESHOLD_BPS
                        && !(i128::MIN <= l.collateral_amount * LIQUIDATOR_BONUS_BPS <= i128::MAX))),
                None => false,
            },
    {
        let l = match loan {
            Some(l) => l,
            None => return Err(Rejection::LoanNotFound),
        };
        if l.debt_amount <= 0 {
            return Err(Rejection::LoanAlreadyRepaid);
        }
        let price = check_mnt_price(price, last_update, max_staleness, now)?;
        let health = Self::get_health_factor(loan, now, price, last_update, max_staleness)?;
        if health as i128 >= LIQUIDATION_THRESHOLD_BPS {
            return Err(Rejection::LoanHealthy);
        }
        let debt = Self::get_current_debt(loan, now);
        let scaled = match l.collateral_amount.checked_mul(LIQUIDATOR_BONUS_BPS) {
            Some(v) => v,
            None => return Err(Rejection::Overflow),
        };
        let fee = i128_div_pos(scaled, BPS_DENOMINATOR);
        let to_liquidator = match l.collateral_amount.checked_sub(fee) {
            Some(v) => v,
            None => return Err(Rejection::FeeExceedsCollateral),
        };
        Ok(Liquidation { debt_repaid: debt, protocol_fee: fee, collateral_to_liquidator: to_liquidator })
    }

    /// What a liquidation would pay: (collateral to the liquidator, debt to
    /// repay, protocol fee); zeros without an outstanding loan.
    pub fn get_liquidation_preview(loan: Option<Loan>, now: u64) -> (p: (i128, i128, i128))
        requires
            loan matches Some(l) ==> i128::MIN <= l.collateral_amount * LIQUIDATOR_BONUS_BPS <= i128::MAX,
        ensures
            (p.0 as int, p.1 as int, p.2 as int) == liquidation_preview(loan, now),
            match loan {
                None => p == (0i128, 0i128, 0i128),
                Some(l) => if l.debt_amount <= 0 {
                    p == (0i128, 0i128, 0i128)
                } else {
                    let fee = liquidation_fee(l.collateral_amount as int);
                    let rest = l.collateral_amount - fee;
                    &&& p.0 == (if i128::MIN <= rest <= i128::MAX { rest } else { 0 })
                    &&& p.1 == debt_at(loan, now)
                    &&& p.2 == fee
                },
            },
    {
        let l = match loan {
            Some(l) => l,
            None => return (0, 0, 0),
        };
        if l.debt_amount <= 0 {
            return (0, 0, 0);
        }
        let debt = Self::get_current_debt(loan, now);
        let fee = i128_div_pos(l.collateral_amount * LIQUIDATOR_BONUS_BPS, BPS_DENOMINATOR);
        let rest = match l.collateral_amount.checked_sub(fee) {
            Some(v) => v,
            None => 0,
        };
        (rest, debt, fee)
    }

    /// The admin sets how old an oracle reading may be (non-zero seconds).
    pub fn set_max_price_staleness(stored_admin: AccountId, caller: AccountId, staleness_secs: u64) -> (r: Result<u64, Rejection>)
        ensures
            caller != stored_admin ==> r == Err::<u64, Rejection>(Rejection::Unauthorized),
            caller == stored_admin && staleness_secs == 0 ==> r == Err::<u64, Rejection>(Rejection::InvalidStaleness),
            caller == stored_admin && staleness_secs > 0 ==> r == Ok::<u64, Rejection>(staleness_secs),
    {
        if caller != stored_admin {
            return Err(Rejection::Unauthorized);
        }
        if staleness_secs == 0 {
            return Err(Rejection::InvalidStaleness);
        }
        Ok(staleness_secs)
    }

    /// The positions of a watch-list page whose health is below 140%.
    /// `healths[i]` is the health of `borrowers[i]` (`None` when it could not
    /// be computed; such positions are skipped).
    pub fn check_at_risk_positions(borrowers: &Vec<AccountId>, healths: &Vec<Option<u32>>) -> (at_risk: Vec<(AccountId, u32)>)
        requires
            borrowers@.len() == healths@.len(),
        ensures
            at_risk@ == at_risk_spec(borrowers@, healths@),
    {
        let mut out: Vec<(AccountId, u32)> = Vec::new();
        let mut i: usize = 0;
        while i < borrowers.len()
            invariant
                0 <= i <= borrowers@.len(),
                borrowers@.len() == healths@.len(),
                out@ == at_risk_spec(borrowers@.take(i as int), healths@.take(i as int)),
            decreases borrowers@.len() - i,
        {
            proof {
                assert(borrowers@.take(i + 1).drop_last() =~= borrowers@.take(i as int));
                assert(healths@.take(i + 1).drop_last() =~= healths@.take(i as int));
            }
            match healths[i] {
                Some(h) => {
                    if (h as i128) < AT_RISK_THRESHOLD_BPS {
                        out.push((borrowers[i], h));
                    }
                },
                None => {},
            }
            i = i + 1;
        }
        proof {
            assert(borrowers@.take(borrowers@.len() as int) =~= borrowers@);
            assert(healths@.take(healths@.len() as int) =~= healths@);
        }
        out
    }
}

/// A loan as it is opened (at least 150% collateralised at the opening
/// price) cannot be liquidated at that price and time: its health is at
/// least the 120% liquidation threshold.
pub proof fn law_new_loan_not_liquidatable(loan: Loan, price: i128)
    requires
        loan.debt_amount > 0,
        ratio_defined(loan.collateral_amount as int, loan.debt_amount as int, price as int),
        ratio_bps(loan.collateral_amount as int, loan.debt_amount as int, price as int) >= MIN_COLLATERAL_RATIO_BPS,
    ensures
        debt_at(Some(loan), loan.borrowed_at) == loan.debt_amount,
        health_of(Some(loan), loan.borrowed_at, price) >= LIQUIDATION_THRESHOLD_BPS,
{
    assert(sat_sub(loan.borrowed_at, loan.borrowed_at) / SECONDS_PER_DAY == 0);
    let a: int = loan.debt_amount * loan.interest_rate_bps;
    let a1: int = if a > i128::MAX { 0 } else { a };
    assert(a1 * 0 == 0) by (nonlinear_arith);
    assert(accrued_interest(loan.debt_amount, loan.interest_rate_bps, 0) == 0);
}

/// The protocol fee of a liquidation never exceeds the collateral, so the
/// liquidator's share and the fee add up to the whole collateral.
pub proof fn law_liquidation_fee_within_collateral(collateral: int)
    requires
        collateral >= 0,
    ensures
        0 <= liquidation_fee(collateral) <= collateral,
        liquidation_fee(collateral) + (collateral - liquidation_fee(collateral)) == collateral,
{
    assert(collateral * LIQUIDATOR_BONUS_BPS >= 0) by (nonlinear_arith)
        requires collateral >= 0;
    assert((collateral * 500) / 10000 <= collateral) by (nonlinear_arith)
        requires collateral >= 0;
}

/// Outstanding debt never falls as time passes (while the interest
/// arithmetic stays within `i128`).
pub proof fn law_debt_never_decreases_over_time(loan: Loan, t1: u64, t2: u64)
    requires
        t1 <= t2,
        loan.debt_amount > 0,
        loan.debt_amount * loan.interest_rate_bps <= i128::MAX,
        loan.debt_amount * loan.interest_rate_bps * (sat_sub(t2, loan.borrowed_at) / SECONDS_PER_DAY) <= i128::MAX,
    ensures
        debt_at(Some(loan), t1) <= debt_at(Some(loan), t2),
{
    let d1: int = (sat_sub(t1, loan.borrowed_at) / SECONDS_PER_DAY) as int;
    let d2: int = (sat_sub(t2, loan.borrowed_at) / SECONDS_PER_DAY) as int;
    vstd::arithmetic::div_mod::lemma_div_is_ordered(
        sat_sub(t1, loan.borrowed_at) as int, sat_sub(t2, loan.borrowed_at) as int, SECONDS_PER_DAY as int);
    let a: int = loan.debt_amount * loan.interest_rate_bps;
    assert(a >= 0) by (nonlinear_arith)
        requires a == loan.debt_amount * loan.interest_rate_bps, loan.debt_amount > 0;
    assert(0 <= a * d1 <= a * d2) by (nonlinear_arith)
        requires a >= 0, 0 <= d1 <= d2;
    vstd::arithmetic::div_mod::lemma_div_is_ordered(a * d1, a * d2, 365 * BPS_DENOMINATOR as int);
}

/// The liquidation preview reports exactly what a successful liquidation
/// pays: the same collateral to the liquidator, debt repaid and protocol
/// fee, and the liquidator's share and the fee make up the whole collateral.
pub proof fn law_preview_matches_liquidation(loan: Option<Loan>, price: i128, last_update: u64, max_staleness: u64, now: u64)
    requires
        liquidation_result(loan, price, last_update, max_staleness, now) is Ok,
    ensures ({
        let liq = liquidation_result(loan, price, last_update, max_staleness, now)->Ok_0;
        &&& liquidation_preview(loan, now) == (liq.collateral_to_liquidator as int, liq.debt_repaid as int, liq.protocol_fee as int)
        &&& liq.collateral_to_liquidator + liq.protocol_fee == loan->Some_0.collateral_amount
    }),
{
}

/// The collateral ratio never falls when collateral or price rises or the
/// debt falls (for non-negative collateral and price and positive debt).
pub proof fn law_ratio_monotone(c1: int, c2: int, p1: int, p2: int, d1: int, d2: int)
    requires
        0 <= c1 <= c2,
        0 <= p1 <= p2,
        0 < d2 <= d1,
    ensures
        ratio_bps(c1, d1, p1) <= ratio_bps(c2, d2, p2),
{
    let v1 = c1 * p1;
    let v2 = c2 * p2;
    assert(0 <= v1 <= v2) by (nonlinear_arith)
        requires 0 <= c1 <= c2, 0 <= p1 <= p2, v1 == c1 * p1, v2 == c2 * p2;
    let s = PRICE_SCALE as int;
    let w1 = (v1 / s) * 10000;
    let w2 = (v2 / s) * 10000;
    assert(0 <= w1 <= w2) by (nonlinear_arith)
        requires 0 <= v1 <= v2, s == 10000, w1 == (v1 / s) * 10000, w2 == (v2 / s) * 10000;
    assert(tdiv(v1, s) == v1 / s);
    assert(tdiv(v2, s) == v2 / s);
    assert(w1 / d1 <= w2 / d2) by (nonlinear_arith)
        requires 0 <= w1 <= w2, 0 < d2 <= d1;
    assert(tdiv(w1, d1) == w1 / d1);
    assert(tdiv(w2, d2) == w2 / d2);
}

} // verus!
