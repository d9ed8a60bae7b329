//! Token-weighted governance: proposals, time-weighted voting, quorum,
//! execution through a timelock, an arbitrator registry and appeals.
//!
//! Every entry point is a decision over the records that the host layer has
//! loaded from contract storage; the host then stores what comes back and
//! performs the cross-contract calls and token transfers it names.
use vstd::prelude::*;
use crate::types::{AccountId, Hash32, sat_sub, hash_eq, position_of, first_position, distinct_accounts};
use crate::hashing::{sha256, sha256_digest};
use crate::gas_estimation::GasEstimate;
use vstd::arithmetic::div_mod::{lemma_small_mod, lemma_mod_add_multiples_vanish};

verus! {

pub const DEFAULT_VOTING_PERIOD_SECS: u64 = 604800;
pub const DEFAULT_QUORUM_BPS: u32 = 1000;
pub const CUSTOM_PROPOSAL_QUORUM_BPS: u32 = 3000;
/// Mandatory delay after voting ends before an `ExecuteCall` may be queued.
pub const EXECUTE_CALL_TIMELOCK_SECS: u64 = 604800;
/// Delay requested from the timelock when queueing an `ExecuteCall`.
pub const TIMELOCK_SCHEDULE_DELAY_SECS: u64 = 172800;
pub const ADMIN_CHANGE_TIMELOCK: u64 = 172800;

pub const GOV_VOTE_BASE_INSTRUCTIONS: u64 = 43000;
pub const PER_STORAGE_OP_INSTRUCTIONS: u64 = 2000;
pub const PER_CROSS_CALL_INSTRUCTIONS: u64 = 300000;

pub const EARLY_WINDOW_END_BPS: u64 = 3300;
pub const EARLY_WEIGHT_BPS: u32 = 8000;
pub const MID_WINDOW_END_BPS: u64 = 6600;
pub const MID_WEIGHT_BPS: u32 = 10000;
pub const LATE_WEIGHT_BPS: u32 = 11000;

/// Errors returned by the admin-change entry points.
#[derive(Clone, Copy, Debug, PartialEq, Eq, Structural)]
pub enum Error {
    AlreadyInitialized,
    NotInitialized,
    Unauthorized,
    NoPendingAdminChange,
    AdminChangeNotYetEffective,
    InvalidAdminChange,
}

/// Why a governance request is refused (each aborts the transaction).
#[derive(Clone, Copy, Debug, PartialEq, Eq, Structural)]
pub enum Rejection {
    InvalidVotingPeriod,
    InvalidQuorumBps,
    CallNotAllowlisted,
    ProposalOverflow,
    ArgsDoNotMatchTemplate,
    VotingEndOverflow,
    ProposalNotActive,
    VotingPeriodEnded,
    AlreadyVoted,
    WeightOverflow,
    NoVotingPower,
    WeightedOverflow,
    VotesOverflow,
    AlreadyExecutedOrQueued,
    VotingPeriodNotEnded,
    ProposalNotExecutable,
    QuorumOverflow,
    ExecuteCallTimelockNotElapsed,
    InvalidTransition,
    ProposalNotQueued,
    CannotCancelExecuted,
    CannotCancelFailed,
    AlreadyCancelled,
    ArbitratorNotFound,
    NoArbitrators,
    NoActiveArbitrators,
    ArbitratorInactive,
    CasesOverflow,
}

/// The message a `Rejection` aborts the transaction with.
pub open spec fn rejection_message(r: Rejection) -> Seq<char> {
    match r {
        Rejection::InvalidVotingPeriod => "invalid voting period"@,
        Rejection::InvalidQuorumBps => "invalid quorum bps"@,
        Rejection::CallNotAllowlisted => "call not allowlisted"@,
        Rejection::ProposalOverflow => "proposal overflow"@,
        Rejection::ArgsDoNotMatchTemplate => "args do not match template hash"@,
        Rejection::VotingEndOverflow => "voting end overflow"@,
        Rejection::ProposalNotActive => "proposal not active"@,
        Rejection::VotingPeriodEnded => "voting period ended"@,
        Rejection::AlreadyVoted => "already voted"@,
        Rejection::WeightOverflow => "weight overflow"@,
        Rejection::NoVotingPower => "no voting power"@,
        Rejection::WeightedOverflow => "weighted overflow"@,
        Rejection::VotesOverflow => "votes overflow"@,
        Rejection::AlreadyExecutedOrQueued => "proposal already executed or queued"@,
        Rejection::VotingPeriodNotEnded => "voting period not ended"@,
        Rejection::ProposalNotExecutable => "proposal not executable"@,
        Rejection::QuorumOverflow => "quorum overflow"@,
        Rejection::ExecuteCallTimelockNotElapsed => "ExecuteCall timelock not elapsed"@,
        Rejection::InvalidTransition => "invalid transition"@,
        Rejection::ProposalNotQueued => "proposal not queued"@,
        Rejection::CannotCancelExecuted => "cannot cancel executed proposal"@,
        Rejection::CannotCancelFailed => "cannot cancel failed proposal"@,
        Rejection::AlreadyCancelled => "proposal already cancelled"@,
        Rejection::ArbitratorNotFound => "arbitrator not found"@,
        Rejection::NoArbitrators => "no arbitrators"@,
        Rejection::NoActiveArbitrators => "no active arbitrators"@,
        Rejection::ArbitratorInactive => "arbitrator inactive"@,
        Rejection::CasesOverflow => "overflow"@,
    }
}

impl Rejection {
    /// The message the transaction aborts with.
    pub fn message(&self) -> (m: &'static str)
        ensures
            m@ == rejection_message(*self),
    {
        match self {
            Rejection::InvalidVotingPeriod => "invalid voting period",
            Rejection::InvalidQuorumBps => "invalid quorum bps",
            Rejection::CallNotAllowlisted => "call not allowlisted",
            Rejection::ProposalOverflow => "proposal overflow",
            Rejection::ArgsDoNotMatchTemplate => "args do not match template hash",
            Rejection::VotingEndOverflow => "voting end overflow",
            Rejection::ProposalNotActive => "proposal not active",
            Rejection::VotingPeriodEnded => "voting period ended",
            Rejection::AlreadyVoted => "already voted",
            Rejection::WeightOverflow => "weight overflow",
            Rejection::NoVotingPower => "no voting power",
            Rejection::WeightedOverflow => "weighted overflow",
            Rejection::VotesOverflow => "votes overflow",
            Rejection::AlreadyExecutedOrQueued => "proposal already executed or queued",
            Rejection::VotingPeriodNotEnded => "voting period not ended",
            Rejection::ProposalNotExecutable => "proposal not executable",
            Rejection::QuorumOverflow => "quorum overflow",
            Rejection::ExecuteCallTimelockNotElapsed => "ExecuteCall timelock not elapsed",
            Rejection::InvalidTransition => "invalid transition",
            Rejection::ProposalNotQueued => "proposal not queued",
            Rejection::CannotCancelExecuted => "cannot cancel executed proposal",
            Rejection::CannotCancelFailed => "cannot cancel failed proposal",
            Rejection::AlreadyCancelled => "proposal already cancelled",
            Rejection::ArbitratorNotFound => "arbitrator not found",
            Rejection::NoArbitrators => "no arbitrators",
            Rejection::NoActiveArbitrators => "no active arbitrators",
            Rejection::ArbitratorInactive => "arbitrator inactive",
            Rejection::CasesOverflow => "overflow",
        }
    }
}

#[derive(Clone, Debug, PartialEq, Eq)]
pub enum ProposalAction {
    UpdateFee(u32),
    UpdateAutoRelease(u64),
    AddAsset(AccountId),
    UpdateAdmin(AccountId),
    /// Target contract, function name, and `u64` arguments.
    ExecuteCall(AccountId, String, Vec<u64>),
}

#[derive(Clone, Copy, Debug, PartialEq, Eq, Structural)]
pub enum ProposalStatus {
    Active,
    Passed,
    Queued,
    Failed,
    Executed,
    Cancelled,
}

/// The lifecycle a proposal may follow.
pub open spec fn valid_transition(from: ProposalStatus, to: ProposalStatus) -> bool {
    ||| from == ProposalStatus::Active && to == ProposalStatus::Passed
    ||| from == ProposalStatus::Active && to == ProposalStatus::Failed
    ||| from == ProposalStatus::Active && to == ProposalStatus::Cancelled
    ||| from == ProposalStatus::Passed && to == ProposalStatus::Queued
    ||| from == ProposalStatus::Passed && to == ProposalStatus::Executed
    ||| from == ProposalStatus::Queued && to == ProposalStatus::Executed
}

impl ProposalStatus {
    /// Whether `from -> to` is a permitted lifecycle step.
    pub fn is_valid_transition(from: &ProposalStatus, to: &ProposalStatus) -> (ok: bool)
        ensures
            ok == valid_transition(*from, *to),
    {
        match (*from, *to) {
            (ProposalStatus::Active, ProposalStatus::Passed) => true,
            (ProposalStatus::Active, ProposalStatus::Failed) => true,
            (ProposalStatus::Active, ProposalStatus::Cancelled) => true,
            (ProposalStatus::Passed, ProposalStatus::Queued) => true,
            (ProposalStatus::Passed, ProposalStatus::Executed) => true,
            (ProposalStatus::Queued, ProposalStatus::Executed) => true,
            _ => false,
        }
    }
}

#[derive(Clone, Debug, PartialEq, Eq)]
pub struct Proposal {
    pub id: u32,
    pub proposer: AccountId,
    pub title: Vec<u8>,
    pub description_hash: Hash32,
    pub action: ProposalAction,
    pub status: ProposalStatus,
    pub created_at: u64,
    pub voting_ends_at: u64,
    pub snapshot_ledger: u32,
    pub total_supply_snapshot: i128,
    pub votes_for: i128,
    pub votes_against: i128,
    pub timelock_op_id: Hash32,
}

/// The voting window a vote falls into: 0 = early, 1 = mid, 2 = late, and
/// the weight multiplier applied to it, in basis points.
#[derive(Clone, Copy, Debug, PartialEq, Eq, Structural)]
pub struct VotingWindow {
    pub window: u32,
    pub weight_bps: u32,
}

/// Move `proposal` to status `to`, refusing steps outside the lifecycle.
fn transition_proposal_status(proposal: &mut Proposal, to: ProposalStatus) -> (r: Result<(), Rejection>)
    ensures
        valid_transition(old(proposal).status, to) ==> r is Ok && *final(proposal) == (Proposal { status: to, ..*old(proposal) }),
        !valid_transition(old(proposal).status, to) ==> r == Err::<(), Rejection>(Rejection::InvalidTransition) && *final(proposal) == *old(proposal),
{
    if !ProposalStatus::is_valid_transition(&proposal.status, &to) {
        return Err(Rejection::InvalidTransition);
    }
    proposal.status = to;
    Ok(())
}

/// Fraction of the voting period elapsed at `now`, in basis points, as the
/// contract computes it (a multiplication overflow counts as zero).
pub open spec fn elapsed_bps(created_at: u64, voting_ends_at: u64, now: u64) -> u64 {
    let elapsed = sat_sub(now, created_at);
    let total = sat_sub(voting_ends_at, created_at);
    let scaled: u64 = if elapsed * 10000 > u64::MAX { 0 } else { (elapsed * 10000) as u64 };
    (scaled / total) as u64
}

/// The voting window of a proposal at time `now`.
pub open spec fn window_at(created_at: u64, voting_ends_at: u64, now: u64) -> VotingWindow {
    if sat_sub(voting_ends_at, created_at) == 0 {
        VotingWindow { window: 1, weight_bps: MID_WEIGHT_BPS }
    } else {
        let pct = elapsed_bps(created_at, voting_ends_at, now);
        if pct <= EARLY_WINDOW_END_BPS {
            VotingWindow { window: 0, weight_bps: EARLY_WEIGHT_BPS }
        } else if pct <= MID_WINDOW_END_BPS {
            VotingWindow { window: 1, weight_bps: MID_WEIGHT_BPS }
        } else {
            VotingWindow { window: 2, weight_bps: LATE_WEIGHT_BPS }
        }
    }
}

/// What a successful vote records.
#[derive(Clone, Debug, PartialEq, Eq)]
pub struct VoteReceipt {
    /// The proposal with the raw weight added to the chosen side.
    pub proposal: Proposal,
    /// Raw voting weight: snapshot power plus delegated power.
    pub weight: i128,
    pub window: VotingWindow,
    /// The raw weight scaled by the window's multiplier.
    pub weighted: i128,
    /// The new time-weighted tally of the chosen side.
    pub weighted_tally: i128,
}

/// A voter's own power at the snapshot: none once it was delegated away.
pub open spec fn own_power(snapshot_weight: i128, delegated_away: bool) -> int {
    if delegated_away { 0 } else { snapshot_weight as int }
}

/// The first condition, in the order the contract checks them, that makes
/// a vote fail; `None` when the vote is accepted.
pub open spec fn vote_rejection(
    proposal: Proposal,
    already_voted: bool,
    snapshot_weight: i128,
    delegated_away: bool,
    delegated_power: i128,
    support: bool,
    prior_weighted_tally: Option<i128>,
    now: u64,
) -> Option<Rejection> {
    let weight = own_power(snapshot_weight, delegated_away) + delegated_power;
    let bps = window_at(proposal.created_at, proposal.voting_ends_at, now).weight_bps;
    let weighted = (weight * bps) / 10000;
    let side = if support { proposal.votes_for } else { proposal.votes_against };
    let tally = match prior_weighted_tally { Some(t) => t as int, None => 0 };
    if proposal.status != ProposalStatus::Active {
        Some(Rejection::ProposalNotActive)
    } else if now >= proposal.voting_ends_at {
        Some(Rejection::VotingPeriodEnded)
    } else if already_voted {
        Some(Rejection::AlreadyVoted)
    } else if weight > i128::MAX || weight < i128::MIN {
        Some(Rejection::WeightOverflow)
    } else if weight <= 0 {
        Some(Rejection::NoVotingPower)
    } else if weight * bps > i128::MAX {
        Some(Rejection::WeightedOverflow)
    } else if side + weight > i128::MAX || side + weight < i128::MIN {
        Some(Rejection::VotesOverflow)
    } else if tally + weighted > i128::MAX || tally + weighted < i128::MIN {
        Some(Rejection::WeightedOverflow)
    } else {
        None
    }
}

/// What executing a proposal leads to.
#[derive(Clone, Copy, Debug, PartialEq, Eq, Structural)]
pub enum ExecutionStep {
    /// Quorum or majority was not reached; the proposal is now `Failed`.
    Failed,
    /// The proposal passed and is now `Executed`; the host applies its action.
    Executed,
    /// An `ExecuteCall` passed: the host schedules it on the timelock and
    /// then records the operation with [`queue_proposal`].
    ScheduleOnTimelock,
}

#[derive(Clone, Debug, PartialEq, Eq)]
pub struct ExecutionDecision {
    pub proposal: Proposal,
    pub step: ExecutionStep,
    pub quorum_met: bool,
    /// Time-weighted tallies used for the decision.
    pub weighted_for: i128,
    pub weighted_against: i128,
}

pub open spec fn is_execute_call(action: ProposalAction) -> bool {
    action is ExecuteCall
}

/// The quorum (in basis points) that applies to a proposal.
pub open spec fn quorum_for(is_custom: bool, configured_quorum_bps: u32) -> u32 {
    if is_custom { CUSTOM_PROPOSAL_QUORUM_BPS } else { configured_quorum_bps }
}

/// Whether `total_weighted` votes meet `quorum_bps` of the snapshot supply.
pub open spec fn quorum_reached(total_weighted: int, supply: int, quorum_bps: int) -> bool {
    supply > 0 && total_weighted * 10000 >= supply * quorum_bps
}

/// Whether an executable proposal passes: its time-weighted turnout meets
/// the quorum for its kind and more weight is for than against.
pub open spec fn execution_passes(
    proposal: Proposal,
    is_custom: bool,
    configured_quorum_bps: u32,
    weighted_for: Option<i128>,
    weighted_against: Option<i128>,
) -> bool {
    let wf: int = match weighted_for { Some(v) => v as int, None => proposal.votes_for as int };
    let wa: int = match weighted_against { Some(v) => v as int, None => proposal.votes_against as int };
    quorum_reached(wf + wa, proposal.total_supply_snapshot as int, quorum_for(is_custom, configured_quorum_bps) as int)
        && wf > wa
}

/// The first reason executing `proposal` at `now` is refused, in the order
/// the contract checks them.
pub open spec fn execution_rejection(
    proposal: Proposal,
    now: u64,
    is_custom: bool,
    configured_quorum_bps: u32,
    weighted_for: Option<i128>,
    weighted_against: Option<i128>,
) -> Option<Rejection> {
    let wf: int = match weighted_for { Some(v) => v as int, None => proposal.votes_for as int };
    let wa: int = match weighted_against { Some(v) => v as int, None => proposal.votes_against as int };
    let total = wf + wa;
    let q = quorum_for(is_custom, configured_quorum_bps);
    let supply = proposal.total_supply_snapshot as int;
    let passed = quorum_reached(total, supply, q as int) && wf > wa;
    if proposal.status == ProposalStatus::Executed || proposal.status == ProposalStatus::Queued {
        Some(Rejection::AlreadyExecutedOrQueued)
    } else if now < proposal.voting_ends_at {
        Some(Rejection::VotingPeriodNotEnded)
    } else if proposal.status == ProposalStatus::Cancelled || proposal.status == ProposalStatus::Failed {
        Some(Rejection::ProposalNotExecutable)
    } else if total > i128::MAX || total < i128::MIN {
        Some(Rejection::QuorumOverflow)
    } else if supply > 0 && (total * 10000 > i128::MAX || total * 10000 < i128::MIN
        || supply * q > i128::MAX) {
        Some(Rejection::QuorumOverflow)
    } else if !passed && !valid_transition(proposal.status, ProposalStatus::Failed) {
        Some(Rejection::InvalidTransition)
    } else if passed && !valid_transition(proposal.status, ProposalStatus::Passed) {
        Some(Rejection::InvalidTransition)
    } else if passed && is_execute_call(proposal.action)
        && proposal.voting_ends_at + EXECUTE_CALL_TIMELOCK_SECS > u64::MAX {
        Some(Rejection::ExecuteCallTimelockNotElapsed)
    } else if passed && is_execute_call(proposal.action)
        && now < proposal.voting_ends_at + EXECUTE_CALL_TIMELOCK_SECS {
        Some(Rejection::ExecuteCallTimelockNotElapsed)
    } else {
        None
    }
}

/// Record the timelock operation of a passed `ExecuteCall` proposal and
/// move it to `Queued`.
pub fn queue_proposal(proposal: Proposal, timelock_op_id: Hash32) -> (r: Result<Proposal, Rejection>)
    ensures
        proposal.status == ProposalStatus::Passed ==> r == Ok::<Proposal, Rejection>(
            Proposal { status: ProposalStatus::Queued, timelock_op_id, ..proposal }),
        proposal.status != ProposalStatus::Passed ==> r == Err::<Proposal, Rejection>(Rejection::InvalidTransition),
{
    let mut proposal = proposal;
    transition_proposal_status(&mut proposal, ProposalStatus::Queued)?;
    proposal.timelock_op_id = timelock_op_id;
    Ok(proposal)
}

/// Stored governance parameters.
#[derive(Clone, Copy, Debug, PartialEq, Eq, Structural)]
pub struct GovernanceConfig {
    pub voting_period_secs: u64,
    pub quorum_bps: u32,
}

/// The big-endian bytes of a `u64`.
pub open spec fn u64_be_bytes(x: u64) -> Seq<u8> {
    seq![(x >> 56u64) as u8, (x >> 48u64) as u8, (x >> 40u64) as u8, (x >> 32u64) as u8,
         (x >> 24u64) as u8, (x >> 16u64) as u8, (x >> 8u64) as u8, x as u8]
}

/// The bytes hashed to commit to a call's arguments: each argument's
/// big-endian encoding, in order.
pub open spec fn args_bytes(args: Seq<u64>) -> Seq<u8>
    decreases args.len(),
{
    if args.len() == 0 {
        Seq::empty()
    } else {
        args_bytes(args.drop_last()) + u64_be_bytes(args.last())
    }
}

/// SHA-256 of the big-endian encoding of `args`, the form in which call
/// templates commit to arguments.
pub fn compute_args_hash(env: &soroban_sdk::Env, args: &Vec<u64>) -> (h: Hash32)
    ensures
        h@ == sha256_digest(args_bytes(args@)),
{
    let mut buf: Vec<u8> = Vec::new();
    let mut i: usize = 0;
    while i < args.len()
        invariant
            0 <= i <= args@.len(),
            buf@ == args_bytes(args@.take(i as int)),
        decreases args@.len() - i,
    {
        let x = args[i];
        buf.push((x >> 56u64) as u8);
        buf.push((x >> 48u64) as u8);
        buf.push((x >> 40u64) as u8);
        buf.push((x >> 32u64) as u8);
        buf.push((x >> 24u64) as u8);
        buf.push((x >> 16u64) as u8);
        buf.push((x >> 8u64) as u8);
        buf.push(x as u8);
        proof {
            assert(args@.take(i + 1).drop_last() =~= args@.take(i as int));
            assert(args@.take(i + 1).last() == x);
            assert(buf@ =~= args_bytes(args@.take(i + 1)));
        }
        i = i + 1;
    }
    assert(args@.take(args@.len() as int) =~= args@);
    sha256(env, &buf)
}

/// The outcome of the pre-checks of proposal creation.
#[derive(Clone, Copy, Debug, PartialEq, Eq, Structural)]
pub struct ProposalPlan {
    /// The id the new proposal receives.
    pub id: u32,
    /// Whether the proposal is a custom call with no registered template
    /// (it then needs the higher custom quorum).
    pub custom: bool,
}

/// The checks made before a proposal is created, given the hash of the
/// call's arguments (`args_hash`, needed when a template is registered for
/// the call).
///
/// An `ExecuteCall` must target an allowlisted call (`call_allowed`); the
/// proposal count must not overflow; when a templates contract is
/// configured (`template_hash` is `Some`, holding the registry's answer for
/// the call), the arguments must hash to the registered template, and a
/// call without a template is a custom proposal.
pub fn plan_proposal(
    action: &ProposalAction,
    call_allowed: bool,
    proposal_count: u32,
    template_hash: Option<Option<Hash32>>,
    args_hash: Option<Hash32>,
) -> (r: Result<ProposalPlan, Rejection>)
    ensures
        match *action {
            ProposalAction::ExecuteCall(_, _, _) => {
                &&& !call_allowed ==> r == Err::<ProposalPlan, Rejection>(Rejection::CallNotAllowlisted)
                &&& call_allowed && proposal_count == u32::MAX ==> r == Err::<ProposalPlan, Rejection>(Rejection::ProposalOverflow)
                &&& call_allowed && proposal_count < u32::MAX ==> match template_hash {
                    Some(Some(expected)) => if args_hash matches Some(h) && expected@ == h@ {
                            r == Ok::<ProposalPlan, Rejection>(ProposalPlan { id: (proposal_count + 1) as u32, custom: false })
                        } else {
                            r == Err::<ProposalPlan, Rejection>(Rejection::ArgsDoNotMatchTemplate)
                        },
                    Some(None) => r == Ok::<ProposalPlan, Rejection>(ProposalPlan { id: (proposal_count + 1) as u32, custom: true }),
                    None => r == Ok::<ProposalPlan, Rejection>(ProposalPlan { id: (proposal_count + 1) as u32, custom: false }),
                }
            },
            _ => {
                &&& proposal_count == u32::MAX ==> r == Err::<ProposalPlan, Rejection>(Rejection::ProposalOverflow)
                &&& proposal_count < u32::MAX ==> r == Ok::<ProposalPlan, Rejection>(ProposalPlan { id: (proposal_count + 1) as u32, custom: false })
            },
        },
{
    if let ProposalAction::ExecuteCall(_, _, _) = action {
        if !call_allowed {
            return Err(Rejection::CallNotAllowlisted);
        }
    }
    let id = match proposal_count.checked_add(1) {
        Some(c) => c,
        None => return Err(Rejection::ProposalOverflow),
    };
    let mut custom = false;
    if let ProposalAction::ExecuteCall(_, _, _) = action {
        match template_hash {
            Some(Some(expected)) => {
                let matches = match args_hash {
                    Some(h) => hash_eq(&h, &expected),
                    None => false,
                };
                if !matches {
                    return Err(Rejection::ArgsDoNotMatchTemplate);
                }
            },
            Some(None) => {
                custom = true;
            },
            None => {},
        }
    }
    Ok(ProposalPlan { id, custom })
}

/// The checks made before a proposal is created (see `plan_proposal`),
/// hashing the call's arguments when a template is registered for it.
pub fn prepare_proposal(
    env: &soroban_sdk::Env,
    action: &ProposalAction,
    call_allowed: bool,
    proposal_count: u32,
    template_hash: Option<Option<Hash32>>,
) -> (r: Result<ProposalPlan, Rejection>)
    ensures
        match *action {
            ProposalAction::ExecuteCall(_, _, args) => {
                &&& !call_allowed ==> r == Err::<ProposalPlan, Rejection>(Rejection::CallNotAllowlisted)
                &&& call_allowed && proposal_count == u32::MAX ==> r == Err::<ProposalPlan, Rejection>(Rejection::ProposalOverflow)
                &&& call_allowed && proposal_count < u32::MAX ==> match template_hash {
                    Some(Some(expected)) => if expected@ == sha256_digest(args_bytes(args@)) {
                            r == Ok::<ProposalPlan, Rejection>(ProposalPlan { id: (proposal_count + 1) as u32, custom: false })
                        } else {
                            r == Err::<ProposalPlan, Rejection>(Rejection::ArgsDoNotMatchTemplate)
                        },
                    Some(None) => r == Ok::<ProposalPlan, Rejection>(ProposalPlan { id: (proposal_count + 1) as u32, custom: true }),
                    None => r == Ok::<ProposalPlan, Rejection>(ProposalPlan { id: (proposal_count + 1) as u32, custom: false }),
                }
            },
            _ => {
                &&& proposal_count == u32::MAX ==> r == Err::<ProposalPlan, Rejection>(Rejection::ProposalOverflow)
                &&& proposal_count < u32::MAX ==> r == Ok::<ProposalPlan, Rejection>(ProposalPlan { id: (proposal_count + 1) as u32, custom: false })
            },
        },
{
    let args_hash: Option<Hash32> = match (action, template_hash) {
        (ProposalAction::ExecuteCall(_, _, args), Some(Some(_))) => Some(compute_args_hash(env, args)),
        _ => None,
    };
    plan_proposal(action, call_allowed, proposal_count, template_hash, args_hash)
}

/// Build an active proposal whose voting period starts at `now`.
pub fn new_proposal(
    id: u32,
    proposer: AccountId,
    title: Vec<u8>,
    description_hash: Hash32,
    action: ProposalAction,
    now: u64,
    voting_period_secs: u64,
    snapshot_ledger: u32,
    total_supply_snapshot: i128,
) -> (r: Result<Proposal, Rejection>)
    ensures
        now + voting_period_secs > u64::MAX ==> r == Err::<Proposal, Rejection>(Rejection::VotingEndOverflow),
        now + voting_period_secs <= u64::MAX ==> r is Ok,
        r matches Ok(p) ==> p == (Proposal {
            id,
            proposer,
            title,
            description_hash,
            action,
            status: ProposalStatus::Active,
            created_at: now,
            voting_ends_at: (now + voting_period_secs) as u64,
            snapshot_ledger,
            total_supply_snapshot,
            votes_for: 0,
            votes_against: 0,
            timelock_op_id: p.timelock_op_id,
        }) && p.timelock_op_id@ == Seq::new(32, |i: int| 0u8),
{
    let voting_ends_at = match now.checked_add(voting_period_secs) {
        Some(t) => t,
        None => return Err(Rejection::VotingEndOverflow),
    };
    let zero: Hash32 = [0u8; 32];
    assert(zero@ =~= Seq::new(32, |i: int| 0u8));
    Ok(Proposal {
        id,
        proposer,
        title,
        description_hash,
        action,
        status: ProposalStatus::Active,
        created_at: now,
        voting_ends_at,
        snapshot_ledger,
        total_supply_snapshot,
        votes_for: 0,
        votes_against: 0,
        timelock_op_id: zero,
    })
}

#[derive(Clone, Copy, Debug, PartialEq, Eq, Structural)]
pub struct ArbitratorRecord {
    pub address: AccountId,
    pub active: bool,
    pub cases_handled: u32,
}

/// `s` with position `i` overwritten by its last element and the last
/// position dropped.
pub open spec fn swap_remove_at(s: Seq<AccountId>, i: int) -> Seq<AccountId> {
    s.update(i, s.last()).drop_last()
}

/// The position a scan for an active arbitrator reaches after `k` steps from
/// the position chosen by `dispute_id`.
pub open spec fn scan_position(dispute_id: u64, count: int, k: int) -> int {
    ((dispute_id as int % count) + k) % count
}

/// The registry list after migrating a legacy list: each legacy arbitrator
/// not listed yet is appended, in order, once.
pub open spec fn migrated(list: Seq<AccountId>, legacy: Seq<AccountId>) -> Seq<AccountId>
    decreases legacy.len(),
{
    if legacy.len() == 0 {
        list
    } else {
        let prev = migrated(list, legacy.drop_last());
        if prev.contains(legacy.last()) { prev } else { prev.push(legacy.last()) }
    }
}

#[derive(Clone, Debug, PartialEq, Eq)]
pub struct AppealRecord {
    pub proposal_id: u32,
    pub appellant: AccountId,
    pub reason: String,
    pub submitted_at: u64,
    pub resolved: bool,
}

#[derive(Clone, Copy, Debug, PartialEq, Eq, Structural)]
pub struct PendingAdminChange {
    pub new_admin: AccountId,
    pub effective_at: u64,
}

/// The governance contract's entry points.
pub struct GovernanceContract;

impl GovernanceContract {
    /// Only the stored admin passes.
    pub fn require_admin(stored_admin: Option<AccountId>, admin: AccountId) -> (r: Result<(), Error>)
        ensures
            stored_admin is None ==> r == Err::<(), Error>(Error::NotInitialized),
            stored_admin matches Some(a) && a != admin ==> r == Err::<(), Error>(Error::Unauthorized),
            stored_admin == Some(admin) ==> r is Ok,
    {
        match stored_admin {
            None => Err(Error::NotInitialized),
            Some(a) => if a != admin { Err(Error::Unauthorized) } else { Ok(()) },
        }
    }

    /// The voting window of `proposal` at time `now`: early (up to 33% of the
    /// period) weighs 80%, mid (up to 66%) 100%, late 110%.
    pub fn get_voting_window(proposal: &Proposal, now: u64) -> (w: VotingWindow)
        ensures
            w == window_at(proposal.created_at, proposal.voting_ends_at, now),
    {
        let elapsed = now.saturating_sub(proposal.created_at);
        let total = proposal.voting_ends_at.saturating_sub(proposal.created_at);
        if total == 0 {
            return VotingWindow { window: 1, weight_bps: MID_WEIGHT_BPS };
        }
        let scaled: u64 = match elapsed.checked_mul(10000) {
            Some(v) => v,
            None => 0,
        };
        let pct_bps = scaled / total;
        if pct_bps <= EARLY_WINDOW_END_BPS {
            VotingWindow { window: 0, weight_bps: EARLY_WEIGHT_BPS }
        } else if pct_bps <= MID_WINDOW_END_BPS {
            VotingWindow { window: 1, weight_bps: MID_WEIGHT_BPS }
        } else {
            VotingWindow { window: 2, weight_bps: LATE_WEIGHT_BPS }
        }
    }

    /// Cast a vote of `support` on `proposal` at `now`.
    ///
    /// `snapshot_weight` is the voter's own power at the proposal's snapshot,
    /// which does not count when the voter had delegated it away by then
    /// (`delegated_away`); `delegated_power` is the power delegated to the
    /// voter at the snapshot; `prior_weighted_tally` is the stored
    /// time-weighted tally of the side voted for (absent before the first
    /// vote on that side).
    pub fn vote(
        proposal: Proposal,
        already_voted: bool,
        snapshot_weight: i128,
        delegated_away: bool,
        delegated_power: i128,
        support: bool,
        prior_weighted_tally: Option<i128>,
        now: u64,
    ) -> (r: Result<VoteReceipt, Rejection>)
        ensures
            r is Err <==> vote_rejection(proposal, already_voted, snapshot_weight, delegated_away, delegated_power, support, prior_weighted_tally, now) is Some,
            r matches Err(e) ==> vote_rejection(proposal, already_voted, snapshot_weight, delegated_away, delegated_power, support, prior_weighted_tally, now) == Some(e),
            r matches Ok(rec) ==> {
                let weight = own_power(snapshot_weight, delegated_away) + delegated_power;
                let window = window_at(proposal.created_at, proposal.voting_ends_at, now);
                let tally = match prior_weighted_tally { Some(t) => t as int, None => 0 };
                &&& rec.weight == weight
                &&& rec.window == window
                &&& rec.weighted == (weight * window.weight_bps) / 10000
                &&& rec.weighted_tally == tally + rec.weighted
                &&& rec.proposal == (if support {
                        Proposal { votes_for: (proposal.votes_for + weight) as i128, ..proposal }
                    } else {
                        Proposal { votes_against: (proposal.votes_against + weight) as i128, ..proposal }
                    })
            },
    {
        if proposal.status != ProposalStatus::Active {
            return Err(Rejection::ProposalNotActive);
        }
        if now >= proposal.voting_ends_at {
            return Err(Rejection::VotingPeriodEnded);
        }
        if already_voted {
            return Err(Rejection::AlreadyVoted);
        }
        let own: i128 = if delegated_away { 0 } else { snapshot_weight };
        let weight = match own.checked_add(delegated_power) {
            Some(w) => w,
            None => return Err(Rejection::WeightOverflow),
        };
        if weight <= 0 {
            return Err(Rejection::NoVotingPower);
        }
        let window = Self::get_voting_window(&proposal, now);
        let scaled = match weight.checked_mul(window.weight_bps as i128) {
            Some(s) => s,
            None => return Err(Rejection::WeightedOverflow),
        };
        let weighted = scaled / 10000;
        let mut proposal = proposal;
        if support {
            proposal.votes_for = match proposal.votes_for.checked_add(weight) {
                Some(v) => v,
                None => return Err(Rejection::VotesOverflow),
            };
        } else {
            proposal.votes_against = match proposal.votes_against.checked_add(weight) {
                Some(v) => v,
                None => return Err(Rejection::VotesOverflow),
            };
        }
        let prior: i128 = match prior_weighted_tally {
            Some(t) => t,
            None => 0,
        };
        let weighted_tally = match prior.checked_add(weighted) {
            Some(t) => t,
            None => return Err(Rejection::WeightedOverflow),
        };
        Ok(VoteReceipt { proposal, weight, window, weighted, weighted_tally })
    }

    /// Tally a proposal whose voting period has ended.
    ///
    /// Quorum is measured on the time-weighted tallies (falling back to the raw
    /// tallies when none was stored): the weighted total must reach the quorum
    /// share of the snapshot supply, and weighted support must exceed weighted
    /// opposition.  Custom `ExecuteCall` proposals need the higher custom quorum.
    pub fn execute_proposal(
        proposal: Proposal,
        now: u64,
        is_custom: bool,
        configured_quorum_bps: u32,
        weighted_for: Option<i128>,
        weighted_against: Option<i128>,
    ) -> (r: Result<ExecutionDecision, Rejection>)
        ensures
            r is Err <==> execution_rejection(proposal, now, is_custom, configured_quorum_bps, weighted_for, weighted_against) is Some,
            r matches Err(e) ==> execution_rejection(proposal, now, is_custom, configured_quorum_bps, weighted_for, weighted_against) == Some(e),
            r matches Ok(d) ==> {
                let wf: int = match weighted_for { Some(v) => v as int, None => proposal.votes_for as int };
                let wa: int = match weighted_against { Some(v) => v as int, None => proposal.votes_against as int };
                let q = quorum_for(is_custom, configured_quorum_bps);
                let met = quorum_reached(wf + wa, proposal.total_supply_snapshot as int, q as int);
                &&& d.weighted_for == wf
                &&& d.weighted_against == wa
                &&& d.quorum_met == met
                &&& (d.step != ExecutionStep::Failed <==> execution_passes(proposal, is_custom, configured_quorum_bps, weighted_for, weighted_against))
                &&& (met && wf > wa) ==> (if is_execute_call(proposal.action) {
                        d.step == ExecutionStep::ScheduleOnTimelock
                        && d.proposal == (Proposal { status: ProposalStatus::Passed, ..proposal })
                    } else {
                        d.step == ExecutionStep::Executed
                        && d.proposal == (Proposal { status: ProposalStatus::Executed, ..proposal })
                    })
                &&& !(met && wf > wa) ==> d.step == ExecutionStep::Failed
                    && d.proposal == (Proposal { status: ProposalStatus::Failed, ..proposal })
            },
    {
        if proposal.status == ProposalStatus::Executed || proposal.status == ProposalStatus::Queued {
            return Err(Rejection::AlreadyExecutedOrQueued);
        }
        if now < proposal.voting_ends_at {
            return Err(Rejection::VotingPeriodNotEnded);
        }
        if proposal.status == ProposalStatus::Cancelled || proposal.status == ProposalStatus::Failed {
            return Err(Rejection::ProposalNotExecutable);
        }
        let quorum_bps: u32 = if is_custom { CUSTOM_PROPOSAL_QUORUM_BPS } else { configured_quorum_bps };
        let wf: i128 = match weighted_for {
            Some(v) => v,
            None => proposal.votes_for,
        };
        let wa: i128 = match weighted_against {
            Some(v) => v,
            None => proposal.votes_against,
        };
        let total = match wf.checked_add(wa) {
            Some(t) => t,
            None => return Err(Rejection::QuorumOverflow),
        };
        let quorum_met = if proposal.total_supply_snapshot <= 0 {
            false
        } else {
            let lhs = match total.checked_mul(10000) {
                Some(v) => v,
                None => return Err(Rejection::QuorumOverflow),
            };
            let rhs = match proposal.total_supply_snapshot.checked_mul(quorum_bps as i128) {
                Some(v) => v,
                None => return Err(Rejection::QuorumOverflow),
            };
            lhs >= rhs
        };
        let passed = quorum_met && wf > wa;
        let mut proposal = proposal;
        if !passed {
            transition_proposal_status(&mut proposal, ProposalStatus::Failed)?;
            return Ok(ExecutionDecision {
                proposal,
                step: ExecutionStep::Failed,
                quorum_met,
                weighted_for: wf,
                weighted_against: wa,
            });
        }
        transition_proposal_status(&mut proposal, ProposalStatus::Passed)?;
        if let ProposalAction::ExecuteCall(_, _, _) = &proposal.action {
            let earliest = match proposal.voting_ends_at.checked_add(EXECUTE_CALL_TIMELOCK_SECS) {
                Some(t) => t,
                None => return Err(Rejection::ExecuteCallTimelockNotElapsed),
            };
            if now < earliest {
                return Err(Rejection::ExecuteCallTimelockNotElapsed);
            }
            Ok(ExecutionDecision {
                proposal,
                step: ExecutionStep::ScheduleOnTimelock,
                quorum_met,
                weighted_for: wf,
                weighted_against: wa,
            })
        } else {
            transition_proposal_status(&mut proposal, ProposalStatus::Executed)?;
            Ok(ExecutionDecision {
                proposal,
                step: ExecutionStep::Executed,
                quorum_met,
                weighted_for: wf,
                weighted_against: wa,
            })
        }
    }

    /// Execute a queued proposal once the timelock calls back.
    pub fn execute_queued_proposal(proposal: Proposal) -> (r: Result<Proposal, Rejection>)
        ensures
            proposal.status == ProposalStatus::Queued ==> r == Ok::<Proposal, Rejection>(
                Proposal { status: ProposalStatus::Executed, ..proposal }),
            proposal.status != ProposalStatus::Queued ==> r == Err::<Proposal, Rejection>(Rejection::ProposalNotQueued),
    {
        if proposal.status != ProposalStatus::Queued {
            return Err(Rejection::ProposalNotQueued);
        }
        let mut proposal = proposal;
        transition_proposal_status(&mut proposal, ProposalStatus::Executed)?;
        Ok(proposal)
    }

    /// Cancel a proposal that is neither executed, failed nor already cancelled.
    pub fn cancel_proposal(proposal: Proposal) -> (r: Result<Proposal, Rejection>)
        ensures
            proposal.status == ProposalStatus::Executed ==> r == Err::<Proposal, Rejection>(Rejection::CannotCancelExecuted),
            proposal.status == ProposalStatus::Failed ==> r == Err::<Proposal, Rejection>(Rejection::CannotCancelFailed),
            proposal.status == ProposalStatus::Cancelled ==> r == Err::<Proposal, Rejection>(Rejection::AlreadyCancelled),
            (proposal.status == ProposalStatus::Active || proposal.status == ProposalStatus::Passed
                || proposal.status == ProposalStatus::Queued) ==> r == Ok::<Proposal, Rejection>(
                Proposal { status: ProposalStatus::Cancelled, ..proposal }),
    {
        match proposal.status {
            ProposalStatus::Executed => Err(Rejection::CannotCancelExecuted),
            ProposalStatus::Failed => Err(Rejection::CannotCancelFailed),
            ProposalStatus::Cancelled => Err(Rejection::AlreadyCancelled),
            _ => {
                let mut proposal = proposal;
                proposal.status = ProposalStatus::Cancelled;
                Ok(proposal)
            },
        }
    }

    /// Validate the parameters of a fresh governance instance; absent values
    /// take the defaults (a 7-day period and a 10% quorum).
    pub fn initialize(voting_period_secs: Option<u64>, quorum_bps: Option<u32>) -> (r: Result<GovernanceConfig, Rejection>)
        ensures ({
            let period = match voting_period_secs { Some(p) => p, None => DEFAULT_VOTING_PERIOD_SECS };
            let quorum = match quorum_bps { Some(q) => q, None => DEFAULT_QUORUM_BPS };
            &&& period == 0 ==> r == Err::<GovernanceConfig, Rejection>(Rejection::InvalidVotingPeriod)
            &&& period != 0 && (quorum == 0 || quorum > 10000) ==> r == Err::<GovernanceConfig, Rejection>(Rejection::InvalidQuorumBps)
            &&& period != 0 && 0 < quorum <= 10000 ==> r == Ok::<GovernanceConfig, Rejection>(
                    GovernanceConfig { voting_period_secs: period, quorum_bps: quorum })
        }),
    {
        let period = match voting_period_secs {
            Some(p) => p,
            None => DEFAULT_VOTING_PERIOD_SECS,
        };
        if period == 0 {
            return Err(Rejection::InvalidVotingPeriod);
        }
        let quorum = match quorum_bps {
            Some(q) => q,
            None => DEFAULT_QUORUM_BPS,
        };
        if quorum == 0 || quorum > 10000 {
            return Err(Rejection::InvalidQuorumBps);
        }
        Ok(GovernanceConfig { voting_period_secs: period, quorum_bps: quorum })
    }

    /// Register `arbitrator` (or re-activate it, resetting its record).  The
    /// registry list gains the arbitrator at its end if it was not listed yet.
    pub fn register_arbitrator(list: &mut Vec<AccountId>, arbitrator: AccountId) -> (record: ArbitratorRecord)
        ensures
            record == (ArbitratorRecord { address: arbitrator, active: true, cases_handled: 0 }),
            old(list)@.contains(arbitrator) ==> final(list)@ == old(list)@,
            !old(list)@.contains(arbitrator) ==> final(list)@ == old(list)@.push(arbitrator),
    {
        if position_of(list, arbitrator).is_none() {
            list.push(arbitrator);
        }
        ArbitratorRecord { address: arbitrator, active: true, cases_handled: 0 }
    }

    /// Remove `arbitrator` from the registry list: the last listed arbitrator
    /// takes its position.
    pub fn unregister_arbitrator(list: &mut Vec<AccountId>, arbitrator: AccountId) -> (r: Result<(), Rejection>)
        ensures
            !old(list)@.contains(arbitrator) ==> r == Err::<(), Rejection>(Rejection::ArbitratorNotFound)
                && final(list)@ == old(list)@,
            old(list)@.contains(arbitrator) ==> r is Ok
                && final(list)@ == swap_remove_at(old(list)@, first_position(old(list)@, arbitrator)),
    {
        let index = match position_of(list, arbitrator) {
            Some(i) => i,
            None => return Err(Rejection::ArbitratorNotFound),
        };
        list.swap_remove(index);
        Ok(())
    }

    /// The arbitrators listed at positions `offset .. offset + limit`.
    pub fn list_arbitrators_page(list: &Vec<AccountId>, offset: u32, limit: u32) -> (page: Vec<AccountId>)
        requires
            offset + limit <= u32::MAX,
        ensures ({
            let end = if offset + limit < list@.len() { offset + limit } else { list@.len() as int };
            &&& offset < end ==> page@ == list@.subrange(offset as int, end)
            &&& offset >= end ==> page@.len() == 0
        }),
    {
        let end_sum: u32 = offset + limit;
        let end: usize = if (end_sum as usize) < list.len() { end_sum as usize } else { list.len() };
        let mut page: Vec<AccountId> = Vec::new();
        if (offset as usize) >= end {
            return page;
        }
        let mut i: usize = offset as usize;
        while i < end
            invariant
                offset <= i <= end,
                end <= list@.len(),
                page@ == list@.subrange(offset as int, i as int),
            decreases end - i,
        {
            page.push(list[i]);
            proof {
                assert(list@.subrange(offset as int, i + 1) =~= list@.subrange(offset as int, i as int).push(list@[i as int]));
            }
            i = i + 1;
        }
        page
    }

    /// Choose the arbitrator for `dispute_id`: starting at position
    /// `dispute_id % count`, the first active arbitrator in cyclic order.
    /// `active[i]` is whether the arbitrator at position `i` is active.
    pub fn select_arbitrator(list: &Vec<AccountId>, active: &Vec<bool>, dispute_id: u64) -> (r: Result<AccountId, Rejection>)
        requires
            active@.len() == list@.len(),
        ensures
            list@.len() == 0 ==> r == Err::<AccountId, Rejection>(Rejection::NoArbitrators),
            list@.len() > 0 ==> (r == Err::<AccountId, Rejection>(Rejection::NoActiveArbitrators)
                <==> forall|i: int| 0 <= i < list@.len() ==> !active@[i]),
            (exists|i: int| 0 <= i < list@.len() && #[trigger] active@[i]) ==> r is Ok,
            r matches Ok(a) ==> exists|k: int| 0 <= k < list@.len()
                && active@[scan_position(dispute_id, list@.len() as int, k)]
                && a == list@[scan_position(dispute_id, list@.len() as int, k)]
                && forall|j: int| 0 <= j < k ==> !active@[#[trigger] scan_position(dispute_id, list@.len() as int, j)],
    {
        let count = list.len();
        if count == 0 {
            return Err(Rejection::NoArbitrators);
        }
        let start: usize = (dispute_id % (count as u64)) as usize;
        let mut k: usize = 0;
        while k < count
            invariant
                count == list@.len(),
                count == active@.len(),
                count > 0,
                start == dispute_id as int % count as int,
                0 <= k <= count,
                forall|j: int| 0 <= j < k ==> !active@[#[trigger] scan_position(dispute_id, count as int, j)],
            decreases count - k,
        {
            let idx: usize = if k < count - start { start + k } else { k - (count - start) };
            proof {
                let c = count as int;
                let sum = start as int + k as int;
                if sum < c {
                    lemma_small_mod(sum as nat, c as nat);
                } else {
                    lemma_small_mod((sum - c) as nat, c as nat);
                    lemma_mod_add_multiples_vanish(sum - c, c);
                }
                assert(idx == scan_position(dispute_id, count as int, k as int));
            }
            if active[idx] {
                return Ok(list[idx]);
            }
            k = k + 1;
        }
        proof {
            assert forall|i: int| 0 <= i < list@.len() implies !active@[i] by {
                let s = start as int;
                let c = count as int;
                let j = if i >= s { i - s } else { i + c - s };
                assert(0 <= j < c);
                if i >= s {
                    lemma_small_mod(i as nat, c as nat);
                } else {
                    lemma_small_mod(i as nat, c as nat);
                    lemma_mod_add_multiples_vanish(i, c);
                }
                assert(scan_position(dispute_id, count as int, j) == i);
                assert(!active@[scan_position(dispute_id, count as int, j)]);
            }
        }
        Err(Rejection::NoActiveArbitrators)
    }

    /// Move a legacy arbitrator list into the indexed registry.
    pub fn migrate_arbitrators(list: &mut Vec<AccountId>, legacy: &Vec<AccountId>)
        ensures
            final(list)@ == migrated(old(list)@, legacy@),
    {
        let ghost original = list@;
        let mut i: usize = 0;
        while i < legacy.len()
            invariant
                0 <= i <= legacy@.len(),
                list@ == migrated(original, legacy@.take(i as int)),
            decreases legacy@.len() - i,
        {
            let a = legacy[i];
            proof {
                assert(legacy@.take(i + 1).drop_last() =~= legacy@.take(i as int));
                assert(legacy@.take(i + 1).last() == a);
            }
            if position_of(list, a).is_none() {
                list.push(a);
            }
            i = i + 1;
        }
        assert(legacy@.take(legacy@.len() as int) =~= legacy@);
    }

    /// A new, unresolved appeal against a proposal.
    pub fn submit_appeal(appellant: AccountId, proposal_id: u32, reason: String, now: u64) -> (appeal: AppealRecord)
        ensures
            appeal == (AppealRecord { proposal_id, appellant, reason, submitted_at: now, resolved: false }),
    {
        AppealRecord { proposal_id, appellant, reason, submitted_at: now, resolved: false }
    }

    /// An active arbitrator resolves an appeal; the arbitrator's case count grows.
    pub fn resolve_appeal(arbitrator: ArbitratorRecord, appeal: AppealRecord) -> (r: Result<(ArbitratorRecord, AppealRecord), Rejection>)
        ensures
            !arbitrator.active ==> r == Err::<(ArbitratorRecord, AppealRecord), Rejection>(Rejection::ArbitratorInactive),
            arbitrator.active && arbitrator.cases_handled == u32::MAX ==> r == Err::<(ArbitratorRecord, AppealRecord), Rejection>(Rejection::CasesOverflow),
            arbitrator.active && arbitrator.cases_handled < u32::MAX ==> r == Ok::<(ArbitratorRecord, AppealRecord), Rejection>((
                ArbitratorRecord { cases_handled: (arbitrator.cases_handled + 1) as u32, ..arbitrator },
                AppealRecord { resolved: true, ..appeal },
            )),
    {
        if !arbitrator.active {
            return Err(Rejection::ArbitratorInactive);
        }
        if arbitrator.cases_handled == u32::MAX {
            return Err(Rejection::CasesOverflow);
        }
        let mut arbitrator = arbitrator;
        arbitrator.cases_handled = arbitrator.cases_handled + 1;
        let mut appeal = appeal;
        appeal.resolved = true;
        Ok((arbitrator, appeal))
    }

    /// The stored admin proposes `new_admin`, who may take over after the
    /// admin-change timelock.
    pub fn propose_admin_change(stored_admin: Option<AccountId>, caller: AccountId, new_admin: AccountId, now: u64) -> (r: Result<PendingAdminChange, Error>)
        ensures
            stored_admin is None ==> r == Err::<PendingAdminChange, Error>(Error::NotInitialized),
            stored_admin matches Some(a) && a != caller ==> r == Err::<PendingAdminChange, Error>(Error::Unauthorized),
            stored_admin == Some(caller) && now + ADMIN_CHANGE_TIMELOCK > u64::MAX ==> r == Err::<PendingAdminChange, Error>(Error::InvalidAdminChange),
            stored_admin == Some(caller) && now + ADMIN_CHANGE_TIMELOCK <= u64::MAX ==> r == Ok::<PendingAdminChange, Error>(
                PendingAdminChange { new_admin, effective_at: (now + ADMIN_CHANGE_TIMELOCK) as u64 }),
    {
        let admin = match stored_admin {
            Some(a) => a,
            None => return Err(Error::NotInitialized),
        };
        if admin != caller {
            return Err(Error::Unauthorized);
        }
        let effective_at = match now.checked_add(ADMIN_CHANGE_TIMELOCK) {
            Some(t) => t,
            None => return Err(Error::InvalidAdminChange),
        };
        Ok(PendingAdminChange { new_admin, effective_at })
    }

    /// The proposed admin accepts the change once it is effective; returns the
    /// new admin.
    pub fn accept_admin_change(pending: Option<PendingAdminChange>, caller: AccountId, now: u64) -> (r: Result<AccountId, Error>)
        ensures
            pending is None ==> r == Err::<AccountId, Error>(Error::NoPendingAdminChange),
            pending matches Some(p) && p.new_admin != caller ==> r == Err::<AccountId, Error>(Error::Unauthorized),
            pending matches Some(p) && p.new_admin == caller && now < p.effective_at ==> r == Err::<AccountId, Error>(Error::AdminChangeNotYetEffective),
            pending matches Some(p) && p.new_admin == caller && now >= p.effective_at ==> r == Ok::<AccountId, Error>(caller),
    {
        let p = match pending {
            Some(p) => p,
            None => return Err(Error::NoPendingAdminChange),
        };
        if p.new_admin != caller {
            return Err(Error::Unauthorized);
        }
        if now < p.effective_at {
            return Err(Error::AdminChangeNotYetEffective);
        }
        Ok(caller)
    }

    /// Cancelling requires a pending change.
    pub fn cancel_admin_change(pending: Option<PendingAdminChange>) -> (r: Result<(), Error>)
        ensures
            pending is None <==> r == Err::<(), Error>(Error::NoPendingAdminChange),
            pending is Some <==> r is Ok,
    {
        match pending {
            Some(_) => Ok(()),
            None => Err(Error::NoPendingAdminChange),
        }
    }

    /// Heuristic cost of a vote: four reads, five writes and one cross-contract
    /// call, plus one read and one call when the voter has a delegate.
    pub fn estimate_governance_vote_cost(voter_has_delegate: bool) -> (g: GasEstimate)
        ensures
            g.storage_reads == (if voter_has_delegate { 5u32 } else { 4u32 }),
            g.storage_writes == 5,
            g.cross_contract_calls == (if voter_has_delegate { 2u32 } else { 1u32 }),
            g.base_instructions == GOV_VOTE_BASE_INSTRUCTIONS
                + (g.storage_reads + g.storage_writes) * PER_STORAGE_OP_INSTRUCTIONS
                + g.cross_contract_calls * PER_CROSS_CALL_INSTRUCTIONS,
    {
        let mut storage_reads: u32 = 4;
        let storage_writes: u32 = 5;
        let mut cross_contract_calls: u32 = 1;
        if voter_has_delegate {
            storage_reads = storage_reads + 1;
            cross_contract_calls = cross_contract_calls + 1;
        }
        let base_instructions = GOV_VOTE_BASE_INSTRUCTIONS
            + (storage_reads as u64 + storage_writes as u64) * PER_STORAGE_OP_INSTRUCTIONS
            + (cross_contract_calls as u64) * PER_CROSS_CALL_INSTRUCTIONS;
        GasEstimate { base_instructions, storage_reads, storage_writes, cross_contract_calls }
    }
}

/// The stage a status marks in the proposal lifecycle.
pub open spec fn lifecycle_stage(s: ProposalStatus) -> int {
    match s {
        ProposalStatus::Active => 0,
        ProposalStatus::Passed => 1,
        ProposalStatus::Queued => 2,
        ProposalStatus::Executed => 3,
        ProposalStatus::Failed => 3,
        ProposalStatus::Cancelled => 3,
    }
}

/// Every status change the entry points make (a lifecycle step, or the
/// cancellation of an active, passed or queued proposal) moves a proposal
/// strictly forward, so no status is ever revisited.
pub proof fn law_status_changes_move_forward(from: ProposalStatus, to: ProposalStatus)
    requires
        valid_transition(from, to) || (to == ProposalStatus::Cancelled && lifecycle_stage(from) < 3),
    ensures
        lifecycle_stage(from) < lifecycle_stage(to),
{
}

/// Executed, failed and cancelled proposals have no lifecycle step out.
pub proof fn law_terminal_statuses_are_final(from: ProposalStatus, to: ProposalStatus)
    requires
        lifecycle_stage(from) == 3,
    ensures
        !valid_transition(from, to),
{
}

/// Later in the voting period a vote never falls into an earlier window or
/// weighs less (as long as the elapsed time scaled to basis points fits in
/// a `u64`).
pub proof fn law_window_never_moves_back(created_at: u64, voting_ends_at: u64, t1: u64, t2: u64)
    requires
        t1 <= t2,
        sat_sub(t2, created_at) * 10000 <= u64::MAX,
    ensures
        window_at(created_at, voting_ends_at, t1).window <= window_at(created_at, voting_ends_at, t2).window,
        window_at(created_at, voting_ends_at, t1).weight_bps <= window_at(created_at, voting_ends_at, t2).weight_bps,
{
    let total = sat_sub(voting_ends_at, created_at);
    if total != 0 {
        let e1: int = sat_sub(t1, created_at) as int;
        let e2: int = sat_sub(t2, created_at) as int;
        assert(e1 * 10000 <= e2 * 10000);
        vstd::arithmetic::div_mod::lemma_div_is_ordered(e1 * 10000, e2 * 10000, total as int);
    }
}

/// A positive raw weight counts less in the early window, in full in the
/// mid window and more in the late window.
pub proof fn law_window_weighting(weight: int, w: VotingWindow, created_at: u64, voting_ends_at: u64, now: u64)
    requires
        weight > 0,
        w == window_at(created_at, voting_ends_at, now),
    ensures
        w.window == 0 ==> (weight * w.weight_bps) / 10000 <= weight,
        w.window == 1 ==> (weight * w.weight_bps) / 10000 == weight,
        w.window == 2 ==> (weight * w.weight_bps) / 10000 >= weight,
{
    vstd::arithmetic::div_mod::lemma_div_by_multiple(weight, 10000);
    assert(weight * 10000 == 10000 * weight) by (nonlinear_arith);
    assert(weight * 8000 <= weight * 10000) by (nonlinear_arith)
        requires weight > 0;
    assert(weight * 11000 >= weight * 10000) by (nonlinear_arith)
        requires weight > 0;
    vstd::arithmetic::div_mod::lemma_div_is_ordered(weight * 8000, weight * 10000, 10000);
    vstd::arithmetic::div_mod::lemma_div_is_ordered(weight * 10000, weight * 11000, 10000);
}

/// Registering an arbitrator keeps the registry free of duplicates.
pub proof fn law_registration_keeps_registry_distinct(list: Seq<AccountId>, arbitrator: AccountId)
    requires
        distinct_accounts(list),
    ensures
        distinct_accounts(if list.contains(arbitrator) { list } else { list.push(arbitrator) }),
{
    if !list.contains(arbitrator) {
        let next = list.push(arbitrator);
        assert forall|i: int, j: int| 0 <= i < j < next.len() implies next[i] != next[j] by {
            if j == list.len() {
                assert(list[i] == next[i]);
                if next[i] == arbitrator {
                    assert(list.contains(arbitrator));
                }
            }
        }
    }
}

/// Migrating a legacy list keeps the registry free of duplicates.
pub proof fn law_migration_keeps_registry_distinct(list: Seq<AccountId>, legacy: Seq<AccountId>)
    requires
        distinct_accounts(list),
    ensures
        distinct_accounts(migrated(list, legacy)),
    decreases legacy.len(),
{
    if legacy.len() > 0 {
        law_migration_keeps_registry_distinct(list, legacy.drop_last());
        law_registration_keeps_registry_distinct(migrated(list, legacy.drop_last()), legacy.last());
    }
}

/// In a registry without duplicates, unregistering an arbitrator removes
/// it: the list shrinks by one, no longer holds it, still holds every other
/// arbitrator, and stays free of duplicates.
pub proof fn law_unregistered_arbitrator_is_gone(list: Seq<AccountId>, arbitrator: AccountId)
    requires
        distinct_accounts(list),
        list.contains(arbitrator),
    ensures ({
        let next = swap_remove_at(list, first_position(list, arbitrator));
        &&& next.len() == list.len() - 1
        &&& !next.contains(arbitrator)
        &&& forall|b: AccountId| b != arbitrator && list.contains(b) ==> next.contains(b)
        &&& distinct_accounts(next)
    }),
{
    let w = choose|i: int| 0 <= i < list.len() && list[i] == arbitrator;
    assert(forall|j: int| 0 <= j < w ==> list[j] != arbitrator);
    let k = first_position(list, arbitrator);
    assert(0 <= k < list.len() && list[k] == arbitrator);
    let last = list.len() - 1;
    let next = swap_remove_at(list, k);
    assert(next.len() == last);
    assert forall|i: int| 0 <= i < next.len() implies next[i] != arbitrator by {
        if i == k {
            assert(next[i] == list[last]);
            assert(k != last);
        } else {
            assert(next[i] == list[i]);
        }
    }
    assert forall|b: AccountId| b != arbitrator && list.contains(b) implies next.contains(b) by {
        let p = choose|i: int| 0 <= i < list.len() && list[i] == b;
        if p == last {
            assert(next[k] == b);
        } else {
            assert(p != k);
            assert(next[p] == b);
        }
    }
    assert forall|i: int, j: int| 0 <= i < j < next.len() implies next[i] != next[j] by {
        let ii = if i == k { last } else { i };
        let jj = if j == k { last } else { j };
        assert(next[i] == list[ii]);
        assert(next[j] == list[jj]);
        assert(ii != jj);
        if ii < jj {
            assert(list[ii] != list[jj]);
        } else {
            assert(list[jj] != list[ii]);
        }
    }
}

/// The voting window follows the elapsed fraction of the voting period:
/// with `x` the time since creation scaled by 10 000 and `d` the length of
/// the period, a vote is in the early window (weight 80%) while
/// `x < 3 301 d` (at most 33% of the period gone), in the late window
/// (weight 110%) once `x >= 6 601 d` (more than 66% gone), and in the mid
/// window (weight 100%) in between.
pub proof fn law_window_follows_elapsed_fraction(created_at: u64, voting_ends_at: u64, now: u64)
    requires
        created_at < voting_ends_at,
        created_at <= now,
        (now - created_at) * 10000 <= u64::MAX,
    ensures ({
        let x: int = (now - created_at) * 10000;
        let d: int = voting_ends_at - created_at;
        let w = window_at(created_at, voting_ends_at, now);
        &&& (w.window == 0 && w.weight_bps == 8000) <==> x < 3301 * d
        &&& (w.window == 1 && w.weight_bps == 10000) <==> (3301 * d <= x && x < 6601 * d)
        &&& (w.window == 2 && w.weight_bps == 11000) <==> x >= 6601 * d
    }),
{
    let x: int = (now - created_at) * 10000;
    let d: int = voting_ends_at - created_at;
    let pct: int = x / d;
    assert(pct == elapsed_bps(created_at, voting_ends_at, now) as int);
    assert(pct <= 3300 <==> x < 3301 * d) by (nonlinear_arith)
        requires d > 0, x >= 0, pct == x / d;
    assert(pct <= 6600 <==> x < 6601 * d) by (nonlinear_arith)
        requires d > 0, x >= 0, pct == x / d;
}

/// The voting window depends only on the time elapsed within the period,
/// not on when the proposal was created: shifting creation, end and vote by
/// the same amount leaves the window unchanged.
pub proof fn law_window_shift_invariant(shift: u64, period: u64, elapsed: u64)
    requires
        shift + period <= u64::MAX,
        shift + elapsed <= u64::MAX,
    ensures
        window_at(shift, (shift + period) as u64, (shift + elapsed) as u64) == window_at(0, period, elapsed),
{
}

/// A custom proposal (a call without a registered argument template) passes
/// only with a time-weighted turnout of at least 30% of the snapshot supply
/// and more weight for than against, whatever quorum is configured; any
/// other proposal needs the configured quorum.
pub proof fn law_quorum_by_proposal_kind(
    proposal: Proposal,
    is_custom: bool,
    configured_quorum_bps: u32,
    weighted_for: Option<i128>,
    weighted_against: Option<i128>,
)
    ensures ({
        let wf: int = match weighted_for { Some(v) => v as int, None => proposal.votes_for as int };
        let wa: int = match weighted_against { Some(v) => v as int, None => proposal.votes_against as int };
        let supply: int = proposal.total_supply_snapshot as int;
        let required: int = if is_custom { 3000 } else { configured_quorum_bps as int };
        execution_passes(proposal, is_custom, configured_quorum_bps, weighted_for, weighted_against)
            <==> (supply > 0 && (wf + wa) * 10000 >= supply * required && wf > wa)
    }),
{
}

} // verus!
