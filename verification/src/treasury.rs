//! Protocol treasury: token whitelist, deposits, allocations with a
//! two-approval path for large amounts, staker distributions, and the
//! oracle-gated buyback-and-burn flow.
use vstd::prelude::*;
use crate::types::AccountId;

verus! {

pub const ADMIN_CHANGE_TIMELOCK: u64 = 172800;
/// Economic sanity ceiling for a single treasury operation.
pub const MAX_FINANCIAL_AMOUNT: i128 = 1_000_000_000_000_000;
/// Active feeders the oracle must report before a buyback (5-of-7).
pub const MIN_ORACLE_FEEDERS: u32 = 5;
/// Allocations above this amount need a second approval, unless the admin
/// configured another threshold.
pub const DEFAULT_MULTISIG_THRESHOLD: i128 = 50000;
/// Approvals after which a pending allocation is paid out.
pub const REQUIRED_APPROVALS: u32 = 2;
/// Transactions above this USD amount are reported to the regulator hook.
pub const LARGE_TX_THRESHOLD_USD: i128 = 10000;
pub const MAX_BPS: u32 = 10000;

#[derive(Clone, Copy, Debug, PartialEq, Eq, Structural)]
pub enum Error {
    AlreadyInitialized,
    NotInitialized,
    Unauthorized,
    InsufficientBalance,
    /// Oracle has too few active feeders or failed the 5-of-7 consensus check.
    OracleUnhealthy,
    /// Oracle data is stale.
    OracleStale,
    /// Requested token is not on the approved whitelist.
    TokenNotApproved,
    /// `min_mnt_out` passed to a buyback was not strictly positive.
    InvalidMinOut,
    /// The DEX swap returned zero output tokens.
    ZeroOutput,
    /// The DEX swap returned less than the requested minimum.
    SlippageExceeded,
    /// An amount failed financial validation.
    InvalidAmount,
    NoPendingAdminChange,
    AdminChangeNotYetEffective,
    InvalidAdminChange,
    /// The oracle circuit breaker is tripped.
    OracleCircuitBreaker,
}

/// Conditions on which the treasury aborts the transaction outright.
#[derive(Clone, Copy, Debug, PartialEq, Eq, Structural)]
pub enum Abort {
    TokenNotApproved,
    EmptySwapFunction,
    AllocationAlreadyExecuted,
    ApproverAlreadySigned,
}

/// The message a `Abort` aborts the transaction with.
pub open spec fn abort_message(r: Abort) -> Seq<char> {
    match r {
        Abort::TokenNotApproved => "Token not approved"@,
        Abort::EmptySwapFunction => "DexInterface: swap_fn must not be empty"@,
        Abort::AllocationAlreadyExecuted => "Pending allocation already executed"@,
        Abort::ApproverAlreadySigned => "Approver already signed pending allocation"@,
    }
}

impl Abort {
    /// The message the transaction aborts with.
    pub fn message(&self) -> (m: &'static str)
        ensures
            m@ == abort_message(*self),
    {
        match self {
            Abort::TokenNotApproved => "Token not approved",
            Abort::EmptySwapFunction => "DexInterface: swap_fn must not be empty",
            Abort::AllocationAlreadyExecuted => "Pending allocation already executed",
            Abort::ApproverAlreadySigned => "Approver already signed pending allocation",
        }
    }
}

/// A refused treasury request: either an error returned to the caller or an
/// abort of the whole transaction.
#[derive(Clone, Copy, Debug, PartialEq, Eq, Structural)]
pub enum Failure {
    Error(Error),
    Abort(Abort),
}

/// Oracle health as the oracle contract reports it to the treasury.
#[derive(Clone, Copy, Debug, PartialEq, Eq, Structural)]
pub struct OracleHealth {
    pub active_feeders: u32,
    pub last_update: u64,
    pub is_stale: bool,
    pub circuit_breaker_tripped: bool,
    pub override_active: bool,
}

/// How to invoke the DEX swap function.
#[derive(Clone, Debug, PartialEq, Eq)]
pub struct DexInterface {
    pub swap_fn: String,
}

impl DexInterface {
    /// The swap function name must not be empty.
    pub fn validate(&self) -> (r: Result<(), Abort>)
        ensures
            r is Ok <==> self.swap_fn@.len() > 0,
            r is Err ==> r == Err::<(), Abort>(Abort::EmptySwapFunction),
    {
        if self.swap_fn.as_str().is_empty() {
            Err(Abort::EmptySwapFunction)
        } else {
            Ok(())
        }
    }
}

#[derive(Clone, Copy, Debug, PartialEq, Eq, Structural)]
pub struct AllocationHistory {
    pub token: AccountId,
    pub recipient: AccountId,
    pub amount: i128,
    pub timestamp: u64,
}

#[derive(Clone, Copy, Debug, PartialEq, Eq, Structural)]
pub struct PendingAllocation {
    pub id: u32,
    pub token: AccountId,
    pub recipient: AccountId,
    pub amount: i128,
    pub approvals_count: u32,
    pub executed: bool,
    pub created_at: u64,
}

/// Whether an amount passes the treasury's financial validation.
pub open spec fn valid_amount(amount: i128) -> bool {
    0 < amount <= MAX_FINANCIAL_AMOUNT
}

/// Positive and within the economic ceiling.
pub fn validate_amount(amount: i128) -> (ok: bool)
    ensures
        ok == valid_amount(amount),
{
    amount > 0 && amount <= MAX_FINANCIAL_AMOUNT
}

/// Whether a transaction of `amount_usd` must be reported as large.
pub fn should_report_large_tx(amount_usd: i128) -> (report: bool)
    ensures
        report == (amount_usd > LARGE_TX_THRESHOLD_USD),
{
    amount_usd > LARGE_TX_THRESHOLD_USD
}

/// How an allocation is carried out.
#[derive(Clone, Copy, Debug, PartialEq, Eq, Structural)]
pub enum AllocationPlan {
    /// Above the multisig threshold: recorded as pending with the admin's
    /// approval; paid out once a second approver signs.
    Pending(PendingAllocation),
    /// At or below the threshold: transferred at once and recorded in the
    /// allocation history.
    Direct(AllocationHistory),
}

/// A pending allocation after one more approval, and the history record of
/// the payout when the approval completes it.
#[derive(Clone, Copy, Debug, PartialEq, Eq, Structural)]
pub struct ApprovalOutcome {
    pub pending: PendingAllocation,
    pub paid_out: Option<AllocationHistory>,
}

/// The plan for an allocation by the admin (see `TreasuryContract::allocate`).
pub open spec fn allocation_result(
    admin_set: bool,
    token_approved: bool,
    token: AccountId,
    recipient: AccountId,
    amount: i128,
    threshold: Option<i128>,
    pending_count: u32,
    now: u64,
) -> Result<AllocationPlan, Error> {
    let t = match threshold { Some(t) => t, None => DEFAULT_MULTISIG_THRESHOLD };
    if !admin_set {
        Err(Error::NotInitialized)
    } else if !token_approved {
        Err(Error::TokenNotApproved)
    } else if !valid_amount(amount) {
        Err(Error::InvalidAmount)
    } else if amount > t {
        Ok(AllocationPlan::Pending(PendingAllocation {
            id: pending_count,
            token,
            recipient,
            amount,
            approvals_count: 1,
            executed: false,
            created_at: now,
        }))
    } else {
        Ok(AllocationPlan::Direct(AllocationHistory { token, recipient, amount, timestamp: now }))
    }
}

/// The outcome of one more approval of a pending allocation.
pub open spec fn approval_result(pending: Option<PendingAllocation>, approver_already_signed: bool, now: u64) -> Result<ApprovalOutcome, Failure> {
    match pending {
        None => Err(Failure::Error(Error::NotInitialized)),
        Some(p) => if p.executed {
            Err(Failure::Abort(Abort::AllocationAlreadyExecuted))
        } else if approver_already_signed {
            Err(Failure::Abort(Abort::ApproverAlreadySigned))
        } else {
            let approvals = (p.approvals_count + 1) as u32;
            let done = approvals >= REQUIRED_APPROVALS;
            Ok(ApprovalOutcome {
                pending: PendingAllocation { approvals_count: approvals, executed: done, ..p },
                paid_out: if done {
                    Some(AllocationHistory { token: p.token, recipient: p.recipient, amount: p.amount, timestamp: now })
                } else {
                    None
                },
            })
        },
    }
}

/// How a staker distribution is split.
#[derive(Clone, Copy, Debug, PartialEq, Eq, Structural)]
pub struct DistributionSplit {
    /// A tenth of the total, sent to the LP reward pool.
    pub lp_amount: i128,
    /// The rest, distributed to stakers.
    pub staker_amount: i128,
}

/// Positions `start .. end` of a page of `limit` records from `offset` in a
/// collection of `total` records.
pub fn page_bounds(offset: u32, limit: u32, total: u32) -> (b: (u32, u32))
    ensures
        b.0 == offset,
        b.1 == (if offset + limit > u32::MAX { if total < u32::MAX { total } else { u32::MAX } }
            else if offset + limit < total { (offset + limit) as u32 } else { total }),
{
    let end = offset.saturating_add(limit);
    let end = if end < total { end } else { total };
    (offset, end)
}

#[derive(Clone, Copy, Debug, PartialEq, Eq, Structural)]
pub struct PendingAdminChange {
    pub new_admin: AccountId,
    pub effective_at: u64,
}

/// Why a buyback was abandoned (reported in the failure event).
#[derive(Clone, Copy, Debug, PartialEq, Eq, Structural)]
pub enum BuybackFailureReason {
    InvalidXlmAmount,
    InvalidMinOut,
    OracleStale,
    OracleUnhealthy,
    OracleCircuitBreaker,
    ZeroOutput,
    Slippage,
}

#[derive(Clone, Copy, Debug, PartialEq, Eq, Structural)]
pub struct BuybackFailed {
    pub xlm_amount: i128,
    pub reason: BuybackFailureReason,
}

#[derive(Clone, Copy, Debug, PartialEq, Eq, Structural)]
pub struct BuybackSucceeded {
    pub xlm_spent: i128,
    pub mnt_burned: i128,
    pub timestamp: u64,
}

/// The parameters of one buyback.
#[derive(Clone, Copy, Debug, PartialEq, Eq, Structural)]
pub struct BuybackRequest {
    /// Whether both the XLM and the MNT token are on the approved whitelist.
    pub tokens_approved: bool,
    pub xlm_amount: i128,
    pub min_mnt_out: i128,
    /// Whether an oracle contract and asset were given (then the oracle's
    /// health gates the swap).
    pub oracle_gated: bool,
}

/// Where a buyback stands.
#[derive(Clone, Copy, Debug, PartialEq, Eq, Structural)]
pub enum BuybackStage {
    Start,
    AwaitingOracleHealth,
    AwaitingSwapOutput,
    Finished,
}

/// What the host reports back to the buyback logic.
#[derive(Clone, Copy, Debug, PartialEq, Eq, Structural)]
pub enum BuybackEvent {
    Begin,
    OracleHealthReported(OracleHealth),
    SwapReturned(i128),
}

/// What the host must do next.
#[derive(Clone, Copy, Debug, PartialEq, Eq, Structural)]
pub enum BuybackAction {
    /// Return `error` without any event or transfer.
    Reject { error: Error },
    /// Ask the oracle for the asset's health.
    QueryOracleHealth,
    /// Approve `xlm_amount` for the DEX and swap it for at least `min_mnt_out`.
    ApproveAndSwap,
    /// Burn the `mnt` received and report success.
    BurnAndReport { mnt: i128 },
    /// Publish the failure event, reset the DEX approval when
    /// `revoke_approval`, and return `error`.
    Fail { error: Error, reason: BuybackFailureReason, revoke_approval: bool },
    /// The event does not belong to this stage; nothing is done.
    Ignore,
}

/// Whether an oracle report allows the swap.
pub open spec fn oracle_healthy(h: OracleHealth) -> bool {
    !h.is_stale && h.active_feeders >= MIN_ORACLE_FEEDERS && !h.circuit_breaker_tripped
}

/// One step of the buyback flow: from `stage`, on `event`, the next stage
/// and what the host must do.
pub open spec fn buyback_transition(req: BuybackRequest, stage: BuybackStage, event: BuybackEvent) -> (BuybackStage, BuybackAction) {
    match (stage, event) {
        (BuybackStage::Start, BuybackEvent::Begin) =>
            if !req.tokens_approved {
                (BuybackStage::Finished, BuybackAction::Reject { error: Error::TokenNotApproved })
            } else if !valid_amount(req.xlm_amount) {
                (BuybackStage::Finished, BuybackAction::Fail {
                    error: Error::InvalidAmount, reason: BuybackFailureReason::InvalidXlmAmount, revoke_approval: false })
            } else if req.min_mnt_out <= 0 {
                (BuybackStage::Finished, BuybackAction::Fail {
                    error: Error::InvalidMinOut, reason: BuybackFailureReason::InvalidMinOut, revoke_approval: false })
            } else if req.oracle_gated {
                (BuybackStage::AwaitingOracleHealth, BuybackAction::QueryOracleHealth)
            } else {
                (BuybackStage::AwaitingSwapOutput, BuybackAction::ApproveAndSwap)
            },
        (BuybackStage::AwaitingOracleHealth, BuybackEvent::OracleHealthReported(h)) =>
            if h.is_stale {
                (BuybackStage::Finished, BuybackAction::Fail {
                    error: Error::OracleStale, reason: BuybackFailureReason::OracleStale, revoke_approval: false })
            } else if h.active_feeders < MIN_ORACLE_FEEDERS {
                (BuybackStage::Finished, BuybackAction::Fail {
                    error: Error::OracleUnhealthy, reason: BuybackFailureReason::OracleUnhealthy, revoke_approval: false })
            } else if h.circuit_breaker_tripped {
                (BuybackStage::Finished, BuybackAction::Fail {
                    error: Error::OracleCircuitBreaker, reason: BuybackFailureReason::OracleCircuitBreaker, revoke_approval: false })
            } else {
                (BuybackStage::AwaitingSwapOutput, BuybackAction::ApproveAndSwap)
            },
        (BuybackStage::AwaitingSwapOutput, BuybackEvent::SwapReturned(received)) =>
            if received == 0 {
                (BuybackStage::Finished, BuybackAction::Fail {
                    error: Error::ZeroOutput, reason: BuybackFailureReason::ZeroOutput, revoke_approval: true })
            } else if received < req.min_mnt_out {
                (BuybackStage::Finished, BuybackAction::Fail {
                    error: Error::SlippageExceeded, reason: BuybackFailureReason::Slippage, revoke_approval: true })
            } else {
                (BuybackStage::Finished, BuybackAction::BurnAndReport { mnt: received })
            },
        _ => (stage, BuybackAction::Ignore),
    }
}

/// One step of the buyback-and-burn flow.
///
/// Preflight validation (both tokens approved, amount within limits,
/// strictly positive minimum output), then the oracle gate (fresh data, at least 5 active feeders, no
/// tripped circuit breaker), then the swap output check (non-zero and at
/// least the minimum).  MNT is burned only after all of them passed.
pub fn buyback_step(req: BuybackRequest, stage: BuybackStage, event: BuybackEvent) -> (next: (BuybackStage, BuybackAction))
    ensures
        next == buyback_transition(req, stage, event),
{
    match (stage, event) {
        (BuybackStage::Start, BuybackEvent::Begin) => {
            if !req.tokens_approved {
                return (BuybackStage::Finished, BuybackAction::Reject { error: Error::TokenNotApproved });
            }
            if !validate_amount(req.xlm_amount) {
                return (BuybackStage::Finished, BuybackAction::Fail {
                    error: Error::InvalidAmount, reason: BuybackFailureReason::InvalidXlmAmount, revoke_approval: false });
            }
            if req.min_mnt_out <= 0 {
                return (BuybackStage::Finished, BuybackAction::Fail {
                    error: Error::InvalidMinOut, reason: BuybackFailureReason::InvalidMinOut, revoke_approval: false });
            }
            if req.oracle_gated {
                (BuybackStage::AwaitingOracleHealth, BuybackAction::QueryOracleHealth)
            } else {
                (BuybackStage::AwaitingSwapOutput, BuybackAction::ApproveAndSwap)
            }
        },
        (BuybackStage::AwaitingOracleHealth, BuybackEvent::OracleHealthReported(h)) => {
            if h.is_stale {
                (BuybackStage::Finished, BuybackAction::Fail {
                    error: Error::OracleStale, reason: BuybackFailureReason::OracleStale, revoke_approval: false })
            } else if h.active_feeders < MIN_ORACLE_FEEDERS {
                (BuybackStage::Finished, BuybackAction::Fail {
                    error: Error::OracleUnhealthy, reason: BuybackFailureReason::OracleUnhealthy, revoke_approval: false })
            } else if h.circuit_breaker_tripped {
                (BuybackStage::Finished, BuybackAction::Fail {
                    error: Error::OracleCircuitBreaker, reason: BuybackFailureReason::OracleCircuitBreaker, revoke_approval: false })
            } else {
                (BuybackStage::AwaitingSwapOutput, BuybackAction::ApproveAndSwap)
            }
        },
        (BuybackStage::AwaitingSwapOutput, BuybackEvent::SwapReturned(received)) => {
            if received == 0 {
                (BuybackStage::Finished, BuybackAction::Fail {
                    error: Error::ZeroOutput, reason: BuybackFailureReason::ZeroOutput, revoke_approval: true })
            } else if received < req.min_mnt_out {
                (BuybackStage::Finished, BuybackAction::Fail {
                    error: Error::SlippageExceeded, reason: BuybackFailureReason::Slippage, revoke_approval: true })
            } else {
                (BuybackStage::Finished, BuybackAction::BurnAndReport { mnt: received })
            }
        },
        _ => (stage, BuybackAction::Ignore),
    }
}

/// The treasury contract's entry points.
pub struct TreasuryContract;

impl TreasuryContract {
    /// The treasury is set up once.
    pub fn initialize(already_initialized: bool) -> (r: Result<(), Error>)
        ensures
            already_initialized <==> r == Err::<(), Error>(Error::AlreadyInitialized),
            !already_initialized <==> r is Ok,
    {
        if already_initialized { Err(Error::AlreadyInitialized) } else { Ok(()) }
    }

    /// Only the stored admin passes.
    pub fn require_admin(stored_admin: Option<AccountId>, admin: AccountId) -> (r: Result<(), Error>)
        ensures
            stored_admin is None ==> r == Err::<(), Error>(Error::NotInitialized),
            stored_admin matches Some(a) && a != admin ==> r == Err::<(), Error>(Error::Unauthorized),
            stored_admin == Some(admin) ==> r is Ok,
    {
        match stored_admin {
            None => Err(Error::NotInitialized),
            Some(a) => if a != admin { Err(Error::Unauthorized) } else { Ok(()) },
        }
    }

    /// A deposit of an approved token with a valid amount is accepted.
    pub fn deposit(token_approved: bool, amount: i128) -> (r: Result<(), Failure>)
        ensures
            !valid_amount(amount) ==> r == Err::<(), Failure>(Failure::Error(Error::InvalidAmount)),
            valid_amount(amount) && !token_approved ==> r == Err::<(), Failure>(Failure::Abort(Abort::TokenNotApproved)),
            valid_amount(amount) && token_approved ==> r is Ok,
    {
        if !validate_amount(amount) {
            return Err(Failure::Error(Error::InvalidAmount));
        }
        if !token_approved {
            return Err(Failure::Abort(Abort::TokenNotApproved));
        }
        Ok(())
    }

    /// Decide an allocation of `amount` of `token` to `recipient` by the admin.
    ///
    /// `threshold` is the configured multisig threshold (absent: the default),
    /// `pending_count` the number of pending allocations recorded so far.
    pub fn allocate(
        admin_set: bool,
        token_approved: bool,
        token: AccountId,
        recipient: AccountId,
        amount: i128,
        threshold: Option<i128>,
        pending_count: u32,
        now: u64,
    ) -> (r: Result<AllocationPlan, Error>)
        ensures ({
            let t = match threshold { Some(t) => t, None => DEFAULT_MULTISIG_THRESHOLD };
            &&& r == allocation_result(admin_set, token_approved, token, recipient, amount, threshold, pending_count, now)
            &&& !admin_set ==> r == Err::<AllocationPlan, Error>(Error::NotInitialized)
            &&& admin_set && !token_approved ==> r == Err::<AllocationPlan, Error>(Error::TokenNotApproved)
            &&& admin_set && token_approved && !valid_amount(amount) ==> r == Err::<AllocationPlan, Error>(Error::InvalidAmount)
            &&& admin_set && token_approved && valid_amount(amount) && amount > t ==> r == Ok::<AllocationPlan, Error>(
                    AllocationPlan::Pending(PendingAllocation {
                        id: pending_count,
                        token,
                        recipient,
                        amount,
                        approvals_count: 1,
                        executed: false,
                        created_at: now,
                    }))
            &&& admin_set && token_approved && valid_amount(amount) && amount <= t ==> r == Ok::<AllocationPlan, Error>(
                    AllocationPlan::Direct(AllocationHistory { token, recipient, amount, timestamp: now }))
        }),
    {
        if !admin_set {
            return Err(Error::NotInitialized);
        }
        if !token_approved {
            return Err(Error::TokenNotApproved);
        }
        if !validate_amount(amount) {
            return Err(Error::InvalidAmount);
        }
        let t: i128 = match threshold {
            Some(t) => t,
            None => DEFAULT_MULTISIG_THRESHOLD,
        };
        if amount > t {
            Ok(AllocationPlan::Pending(PendingAllocation {
                id: pending_count,
                token,
                recipient,
                amount,
                approvals_count: 1,
                executed: false,
                created_at: now,
            }))
        } else {
            Ok(AllocationPlan::Direct(AllocationHistory { token, recipient, amount, timestamp: now }))
        }
    }

    /// Add an approval to a pending allocation; the second approval pays it out.
    pub fn approve_pending_allocation(
        pending: Option<PendingAllocation>,
        approver_already_signed: bool,
        now: u64,
    ) -> (r: Result<ApprovalOutcome, Failure>)
        requires
            pending matches Some(p) ==> p.approvals_count < u32::MAX,
        ensures
            r == approval_result(pending, approver_already_signed, now),
            pending is None ==> r == Err::<ApprovalOutcome, Failure>(Failure::Error(Error::NotInitialized)),
            pending matches Some(p) && p.executed ==> r == Err::<ApprovalOutcome, Failure>(Failure::Abort(Abort::AllocationAlreadyExecuted)),
            pending matches Some(p) && !p.executed && approver_already_signed ==> r == Err::<ApprovalOutcome, Failure>(Failure::Abort(Abort::ApproverAlreadySigned)),
            pending matches Some(p) && !p.executed && !approver_already_signed ==> r is Ok,
            r matches Ok(o) ==> match pending {
                Some(p) => {
                    let approvals = (p.approvals_count + 1) as u32;
                    let done = approvals >= REQUIRED_APPROVALS;
                    &&& o.pending == (PendingAllocation { approvals_count: approvals, executed: done, ..p })
                    &&& done ==> o.paid_out == Some(AllocationHistory { token: p.token, recipient: p.recipient, amount: p.amount, timestamp: now })
                    &&& !done ==> o.paid_out is None
                },
                None => false,
            },
    {
        let mut p = match pending {
            Some(p) => p,
            None => return Err(Failure::Error(Error::NotInitialized)),
        };
        if p.executed {
            return Err(Failure::Abort(Abort::AllocationAlreadyExecuted));
        }
        if approver_already_signed {
            return Err(Failure::Abort(Abort::ApproverAlreadySigned));
        }
        p.approvals_count = p.approvals_count + 1;
        if p.approvals_count >= REQUIRED_APPROVALS {
            p.executed = true;
            let record = AllocationHistory { token: p.token, recipient: p.recipient, amount: p.amount, timestamp: now };
            Ok(ApprovalOutcome { pending: p, paid_out: Some(record) })
        } else {
            Ok(ApprovalOutcome { pending: p, paid_out: None })
        }
    }

    /// Split `total_amount` of an approved token between the LP pool and stakers.
    pub fn distribute_to_stakers(admin_set: bool, token_approved: bool, total_amount: i128) -> (r: Result<DistributionSplit, Error>)
        ensures
            !admin_set ==> r == Err::<DistributionSplit, Error>(Error::NotInitialized),
            admin_set && !token_approved ==> r == Err::<DistributionSplit, Error>(Error::TokenNotApproved),
            admin_set && token_approved && !valid_amount(total_amount) ==> r == Err::<DistributionSplit, Error>(Error::InvalidAmount),
            admin_set && token_approved && valid_amount(total_amount) ==> r == Ok::<DistributionSplit, Error>(DistributionSplit {
                lp_amount: (total_amount / 10) as i128,
                staker_amount: (total_amount - total_amount / 10) as i128,
            }),
    {
        if !admin_set {
            return Err(Error::NotInitialized);
        }
        if !token_approved {
            return Err(Error::TokenNotApproved);
        }
        if !validate_amount(total_amount) {
            return Err(Error::InvalidAmount);
        }
        let lp_amount = total_amount / 10;
        let staker_amount = total_amount - lp_amount;
        Ok(DistributionSplit { lp_amount, staker_amount })
    }

    /// A valid auto-burn rate is at most 100% (10 000 bps).
    pub fn set_auto_burn_rate(bps: u32) -> (r: Result<u32, Error>)
        ensures
            bps <= MAX_BPS ==> r == Ok::<u32, Error>(bps),
            bps > MAX_BPS ==> r == Err::<u32, Error>(Error::InvalidAmount),
    {
        if bps > MAX_BPS {
            Err(Error::InvalidAmount)
        } else {
            Ok(bps)
        }
    }

    /// Drain the burn queue: returns the amount burned and the queue left
    /// behind.  Whatever was queued is burned and the queue is emptied; an
    /// empty (or non-positive) queue burns nothing and stays as it is.
    pub fn execute_burn_queue(queued: i128) -> (r: (i128, i128))
        ensures
            queued <= 0 ==> r == (0i128, queued),
            queued > 0 ==> r == (queued, 0i128),
    {
        if queued <= 0 {
            (0, queued)
        } else {
            (queued, 0)
        }
    }

    /// The stored admin proposes `new_admin`, effective after the timelock.
    pub fn propose_admin_change(stored_admin: Option<AccountId>, caller: AccountId, new_admin: AccountId, now: u64) -> (r: Result<PendingAdminChange, Error>)
        ensures
            stored_admin is None ==> r == Err::<PendingAdminChange, Error>(Error::NotInitialized),
            stored_admin matches Some(a) && a != caller ==> r == Err::<PendingAdminChange, Error>(Error::Unauthorized),
            stored_admin == Some(caller) && now + ADMIN_CHANGE_TIMELOCK > u64::MAX ==> r == Err::<PendingAdminChange, Error>(Error::InvalidAdminChange),
            stored_admin == Some(caller) && now + ADMIN_CHANGE_TIMELOCK <= u64::MAX ==> r == Ok::<PendingAdminChange, Error>(
                PendingAdminChange { new_admin, effective_at: (now + ADMIN_CHANGE_TIMELOCK) as u64 }),
    {
        let admin = match stored_admin {
            Some(a) => a,
            None => return Err(Error::NotInitialized),
        };
        if admin != caller {
            return Err(Error::Unauthorized);
        }
        let effective_at = match now.checked_add(ADMIN_CHANGE_TIMELOCK) {
            Some(t) => t,
            None => return Err(Error::InvalidAdminChange),
        };
        Ok(PendingAdminChange { new_admin, effective_at })
    }

    /// The proposed admin takes over once the change is effective.
    pub fn accept_admin_change(pending: Option<PendingAdminChange>, caller: AccountId, now: u64) -> (r: Result<AccountId, Error>)
        ensures
            pending is None ==> r == Err::<AccountId, Error>(Error::NoPendingAdminChange),
            pending matches Some(p) && p.new_admin != caller ==> r == Err::<AccountId, Error>(Error::Unauthorized),
            pending matches Some(p) && p.new_admin == caller && now < p.effective_at ==> r == Err::<AccountId, Error>(Error::AdminChangeNotYetEffective),
            pending matches Some(p) && p.new_admin == caller && now >= p.effective_at ==> r == Ok::<AccountId, Error>(caller),
    {
        let p = match pending {
            Some(p) => p,
            None => return Err(Error::NoPendingAdminChange),
        };
        if p.new_admin != caller {
            return Err(Error::Unauthorized);
        }
        if now < p.effective_at {
            return Err(Error::AdminChangeNotYetEffective);
        }
        Ok(caller)
    }

    /// Cancelling requires a pending change.
    pub fn cancel_admin_change(pending: Option<PendingAdminChange>) -> (r: Result<(), Error>)
        ensures
            pending is None <==> r == Err::<(), Error>(Error::NoPendingAdminChange),
            pending is Some <==> r is Ok,
    {
        match pending {
            Some(_) => Ok(()),
            None => Err(Error::NoPendingAdminChange),
        }
    }
}

/// The stages reached and actions requested when the buyback flow is fed
/// `events` one after another from `stage`.
pub open spec fn buyback_run(req: BuybackRequest, stage: BuybackStage, events: Seq<BuybackEvent>) -> Seq<BuybackAction>
    decreases events.len(),
{
    if events.len() == 0 {
        Seq::empty()
    } else {
        let step = buyback_transition(req, stage, events[0]);
        seq![step.1] + buyback_run(req, step.0, events.drop_first())
    }
}

/// Whether an event reports an oracle fit for the swap.
pub open spec fn healthy_report(e: BuybackEvent) -> bool {
    match e {
        BuybackEvent::OracleHealthReported(h) => oracle_healthy(h),
        _ => false,
    }
}

/// Whether the preflight checks of a buyback pass.
pub open spec fn buyback_preflight_ok(req: BuybackRequest) -> bool {
    req.tokens_approved && valid_amount(req.xlm_amount) && req.min_mnt_out > 0
}

/// What a stage of the flow guarantees about the checks passed so far.
pub open spec fn buyback_stage_guarantee(req: BuybackRequest, stage: BuybackStage, healthy_seen: bool) -> bool {
    match stage {
        BuybackStage::AwaitingOracleHealth => buyback_preflight_ok(req) && req.oracle_gated,
        BuybackStage::AwaitingSwapOutput => buyback_preflight_ok(req) && (req.oracle_gated ==> healthy_seen),
        _ => true,
    }
}

proof fn lemma_buyback_run(req: BuybackRequest, stage: BuybackStage, healthy_seen: bool, events: Seq<BuybackEvent>, i: int)
    requires
        buyback_stage_guarantee(req, stage, healthy_seen),
        0 <= i < buyback_run(req, stage, events).len(),
        buyback_run(req, stage, events)[i] is BurnAndReport,
    ensures
        i < events.len(),
        buyback_preflight_ok(req),
        buyback_run(req, stage, events)[i]->mnt >= req.min_mnt_out,
        req.oracle_gated ==> healthy_seen || exists|j: int| 0 <= j < i && #[trigger] healthy_report(events[j]),
    decreases events.len(),
{
    let step = buyback_transition(req, stage, events[0]);
    let rest = events.drop_first();
    let seen2 = healthy_seen || healthy_report(events[0]);
    assert(buyback_stage_guarantee(req, step.0, seen2));
    if i > 0 {
        assert(buyback_run(req, stage, events)[i] == buyback_run(req, step.0, rest)[i - 1]);
        lemma_buyback_run(req, step.0, seen2, rest, i - 1);
        if req.oracle_gated && !healthy_seen {
            if healthy_report(events[0]) {
                assert(healthy_report(events[0]));
            } else {
                let j = choose|j: int| 0 <= j < i - 1 && #[trigger] healthy_report(rest[j]);
                assert(rest[j] == events[j + 1]);
                assert(healthy_report(events[j + 1]));
            }
        }
    }
}

/// Along any run of the buyback flow from its start, MNT is burned only if
/// both tokens are approved, the preflight checks passed, the swap returned
/// at least the requested minimum, and, for an oracle-gated buyback, an
/// oracle report showed fresh data, enough active feeders and no tripped
/// circuit breaker first.
pub proof fn law_burn_only_after_all_checks(req: BuybackRequest, events: Seq<BuybackEvent>, i: int)
    requires
        0 <= i < buyback_run(req, BuybackStage::Start, events).len(),
        buyback_run(req, BuybackStage::Start, events)[i] is BurnAndReport,
    ensures
        req.tokens_approved,
        valid_amount(req.xlm_amount),
        req.min_mnt_out > 0,
        buyback_run(req, BuybackStage::Start, events)[i]->mnt >= req.min_mnt_out,
        req.oracle_gated ==> exists|j: int| 0 <= j < i && #[trigger] healthy_report(events[j]),
{
    lemma_buyback_run(req, BuybackStage::Start, false, events, i);
}

/// Whether an action ends the buyback flow.
pub open spec fn ends_flow(a: BuybackAction) -> bool {
    a is Reject || a is BurnAndReport || a is Fail
}

proof fn lemma_run_index(req: BuybackRequest, stage: BuybackStage, events: Seq<BuybackEvent>, i: int)
    requires
        events.len() > 0,
        0 < i < buyback_run(req, stage, events).len(),
    ensures
        buyback_run(req, stage, events).len() == events.len(),
        buyback_run(req, stage, events)[i]
            == buyback_run(req, buyback_transition(req, stage, events[0]).0, events.drop_first())[i - 1],
{
    lemma_run_len(req, stage, events);
    lemma_run_len(req, buyback_transition(req, stage, events[0]).0, events.drop_first());
}

proof fn lemma_run_len(req: BuybackRequest, stage: BuybackStage, events: Seq<BuybackEvent>)
    ensures
        buyback_run(req, stage, events).len() == events.len(),
    decreases events.len(),
{
    if events.len() > 0 {
        lemma_run_len(req, buyback_transition(req, stage, events[0]).0, events.drop_first());
    }
}

/// A finished flow only ignores further events.
proof fn lemma_finished_ignores(req: BuybackRequest, events: Seq<BuybackEvent>, k: int)
    requires
        0 <= k < buyback_run(req, BuybackStage::Finished, events).len(),
    ensures
        buyback_run(req, BuybackStage::Finished, events)[k] is Ignore,
    decreases events.len(),
{
    lemma_run_len(req, BuybackStage::Finished, events);
    if k > 0 {
        lemma_run_index(req, BuybackStage::Finished, events, k);
        lemma_finished_ignores(req, events.drop_first(), k - 1);
    }
}

/// After an action that ends the flow, every later event is ignored.
proof fn lemma_nothing_after_end(req: BuybackRequest, stage: BuybackStage, events: Seq<BuybackEvent>, i: int, k: int)
    requires
        0 <= i < k < buyback_run(req, stage, events).len(),
        ends_flow(buyback_run(req, stage, events)[i]),
    ensures
        buyback_run(req, stage, events)[k] is Ignore,
    decreases events.len(),
{
    lemma_run_len(req, stage, events);
    let next = buyback_transition(req, stage, events[0]).0;
    lemma_run_index(req, stage, events, k);
    if i > 0 {
        lemma_run_index(req, stage, events, i);
        lemma_nothing_after_end(req, next, events.drop_first(), i - 1, k - 1);
    } else {
        assert(next == BuybackStage::Finished);
        lemma_finished_ignores(req, events.drop_first(), k - 1);
    }
}

/// Waiting for the swap output, every failure revokes the DEX approval.
proof fn lemma_failure_after_swap_revokes(req: BuybackRequest, events: Seq<BuybackEvent>, i: int)
    requires
        0 <= i < buyback_run(req, BuybackStage::AwaitingSwapOutput, events).len(),
        buyback_run(req, BuybackStage::AwaitingSwapOutput, events)[i] is Fail,
    ensures
        buyback_run(req, BuybackStage::AwaitingSwapOutput, events)[i]->revoke_approval,
    decreases events.len(),
{
    lemma_run_len(req, BuybackStage::AwaitingSwapOutput, events);
    let next = buyback_transition(req, BuybackStage::AwaitingSwapOutput, events[0]).0;
    if i > 0 {
        lemma_run_index(req, BuybackStage::AwaitingSwapOutput, events, i);
        if next == BuybackStage::Finished {
            lemma_finished_ignores(req, events.drop_first(), i - 1);
        } else {
            lemma_failure_after_swap_revokes(req, events.drop_first(), i - 1);
        }
    }
}

proof fn lemma_swap_then_failure_revokes(req: BuybackRequest, stage: BuybackStage, events: Seq<BuybackEvent>, j: int, i: int)
    requires
        0 <= j < i < buyback_run(req, stage, events).len(),
        buyback_run(req, stage, events)[j] is ApproveAndSwap,
        buyback_run(req, stage, events)[i] is Fail,
    ensures
        buyback_run(req, stage, events)[i]->revoke_approval,
    decreases events.len(),
{
    lemma_run_len(req, stage, events);
    let next = buyback_transition(req, stage, events[0]).0;
    lemma_run_index(req, stage, events, i);
    if j > 0 {
        lemma_run_index(req, stage, events, j);
        lemma_swap_then_failure_revokes(req, next, events.drop_first(), j - 1, i - 1);
    } else {
        assert(next == BuybackStage::AwaitingSwapOutput);
        lemma_failure_after_swap_revokes(req, events.drop_first(), i - 1);
    }
}

/// A buyback run that fails never burns MNT, and once the swap has been
/// made its failure resets the DEX approval.
pub proof fn law_failed_buyback_never_burns(req: BuybackRequest, events: Seq<BuybackEvent>, i: int)
    requires
        0 <= i < buyback_run(req, BuybackStage::Start, events).len(),
        buyback_run(req, BuybackStage::Start, events)[i] is Fail,
    ensures
        forall|k: int| 0 <= k < buyback_run(req, BuybackStage::Start, events).len()
            ==> !(#[trigger] buyback_run(req, BuybackStage::Start, events)[k] is BurnAndReport),
        (exists|j: int| 0 <= j < i && #[trigger] buyback_run(req, BuybackStage::Start, events)[j] is ApproveAndSwap)
            ==> buyback_run(req, BuybackStage::Start, events)[i]->revoke_approval,
{
    let run = buyback_run(req, BuybackStage::Start, events);
    assert forall|k: int| 0 <= k < run.len() implies !(#[trigger] run[k] is BurnAndReport) by {
        if k < i {
            if run[k] is BurnAndReport {
                lemma_nothing_after_end(req, BuybackStage::Start, events, k, i);
            }
        } else if k > i {
            lemma_nothing_after_end(req, BuybackStage::Start, events, i, k);
        }
    }
    if exists|j: int| 0 <= j < i && #[trigger] run[j] is ApproveAndSwap {
        let j = choose|j: int| 0 <= j < i && #[trigger] run[j] is ApproveAndSwap;
        lemma_swap_then_failure_revokes(req, BuybackStage::Start, events, j, i);
    }
}

/// A distribution splits a valid total exactly: the LP pool receives a
/// tenth (rounded down) and the stakers the rest, never less than the pool.
pub proof fn law_distribution_split_sums_to_total(total: i128)
    requires
        valid_amount(total),
    ensures
        total / 10 + (total - total / 10) == total,
        0 <= total / 10 <= total - total / 10,
{
}

/// An allocation above the multisig threshold waits for a second
/// approval: the admin's allocation records it as pending, the next
/// approval pays it out, and every later approval is refused, so it is
/// paid exactly once.
pub proof fn law_pending_allocation_pays_out_once(
    token_approved: bool,
    token: AccountId,
    recipient: AccountId,
    amount: i128,
    threshold: Option<i128>,
    pending_count: u32,
    created_at: u64,
    approved_at: u64,
    later_signed: bool,
    later_at: u64,
)
    requires
        token_approved,
        valid_amount(amount),
        amount > (match threshold { Some(t) => t, None => DEFAULT_MULTISIG_THRESHOLD }),
    ensures ({
        let plan = allocation_result(true, token_approved, token, recipient, amount, threshold, pending_count, created_at);
        let p = plan->Ok_0->Pending_0;
        let first = approval_result(Some(p), false, approved_at);
        &&& plan matches Ok(AllocationPlan::Pending(_))
        &&& first matches Ok(o) && o.paid_out == Some(AllocationHistory { token, recipient, amount, timestamp: approved_at })
        &&& approval_result(Some(first->Ok_0.pending), later_signed, later_at)
            == Err::<ApprovalOutcome, Failure>(Failure::Abort(Abort::AllocationAlreadyExecuted))
    }),
{
}

} // verus!
