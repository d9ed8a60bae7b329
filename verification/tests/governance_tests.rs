use mentorsmind::governance::Error;
use mentorsmind::governance::{
    compute_args_hash, new_proposal, plan_proposal, prepare_proposal, queue_proposal, ExecutionStep, GovernanceConfig,
    GovernanceContract, Proposal, ProposalAction, ProposalStatus, Rejection,
};
use mentorsmind::types::AccountId;
use std::collections::{HashMap, HashSet};

/// A governance instance driven the way the host drives the library:
/// balances stand for the snapshot contract, `delegations` for the
/// delegation contract.
struct Gov {
    env: soroban_sdk::Env,
    now: u64,
    config: GovernanceConfig,
    total_supply: i128,
    balances: HashMap<u64, i128>,
    delegations: HashMap<u64, u64>,
    count: u32,
    proposals: HashMap<u32, Proposal>,
    votes: HashSet<(u32, u64)>,
    vote_weights: HashMap<(u32, u64), i128>,
    multipliers: HashMap<(u32, u64), u32>,
    weighted_for: HashMap<u32, i128>,
    weighted_against: HashMap<u32, i128>,
    custom: HashSet<u32>,
    allowed: HashSet<(u64, String)>,
    templates: Option<HashMap<(u64, String), [u8; 32]>>,
}

fn acct(id: u64) -> AccountId {
    AccountId { id }
}

impl Gov {
    fn new(voting_period: u64, total_supply: i128) -> Gov {
        let config = GovernanceContract::initialize(Some(voting_period), Some(1_000)).unwrap();
        Gov {
            env: soroban_sdk::Env::default(),
            now: 0,
            config,
            total_supply,
            balances: HashMap::new(),
            delegations: HashMap::new(),
            count: 0,
            proposals: HashMap::new(),
            votes: HashSet::new(),
            vote_weights: HashMap::new(),
            multipliers: HashMap::new(),
            weighted_for: HashMap::new(),
            weighted_against: HashMap::new(),
            custom: HashSet::new(),
            allowed: HashSet::new(),
            templates: None,
        }
    }

    fn fail(r: Rejection) -> ! {
        panic!("{}", r.message())
    }

    fn create_proposal(&mut self, proposer: AccountId, title: &[u8], desc: [u8; 32], action: ProposalAction) -> u32 {
        let (allowed, template) = match &action {
            ProposalAction::ExecuteCall(target, function, _) => (
                self.allowed.contains(&(target.id, function.clone())),
                self.templates.as_ref().map(|t| t.get(&(target.id, function.clone())).copied()),
            ),
            _ => (false, None),
        };
        let plan = prepare_proposal(&self.env, &action, allowed, self.count, template).unwrap_or_else(|r| Self::fail(r));
        let p = new_proposal(
            plan.id,
            proposer,
            title.to_vec(),
            desc,
            action,
            self.now,
            self.config.voting_period_secs,
            0,
            self.total_supply,
        )
        .unwrap_or_else(|r| Self::fail(r));
        self.count = plan.id;
        if plan.custom {
            self.custom.insert(plan.id);
        }
        self.proposals.insert(plan.id, p);
        plan.id
    }

    fn vote(&mut self, voter: AccountId, id: u32, support: bool) {
        let p = self.proposals[&id].clone();
        let own = *self.balances.get(&voter.id).unwrap_or(&0);
        let delegated_away = self.delegations.contains_key(&voter.id);
        let delegated: i128 = self
            .delegations
            .iter()
            .filter(|(_, to)| **to == voter.id)
            .map(|(from, _)| *self.balances.get(from).unwrap_or(&0))
            .sum();
        let prior = if support { self.weighted_for.get(&id).copied() } else { self.weighted_against.get(&id).copied() };
        let already = self.votes.contains(&(id, voter.id));
        let rec = GovernanceContract::vote(p, already, own, delegated_away, delegated, support, prior, self.now)
            .unwrap_or_else(|r| Self::fail(r));
        self.votes.insert((id, voter.id));
        self.vote_weights.insert((id, voter.id), rec.weight);
        self.multipliers.insert((id, voter.id), rec.window.weight_bps);
        if support {
            self.weighted_for.insert(id, rec.weighted_tally);
        } else {
            self.weighted_against.insert(id, rec.weighted_tally);
        }
        self.proposals.insert(id, rec.proposal);
    }

    fn execute_proposal(&mut self, id: u32) {
        let p = self.proposals[&id].clone();
        let d = GovernanceContract::execute_proposal(
            p,
            self.now,
            self.custom.contains(&id),
            self.config.quorum_bps,
            self.weighted_for.get(&id).copied(),
            self.weighted_against.get(&id).copied(),
        )
        .unwrap_or_else(|r| Self::fail(r));
        let proposal = if d.step == ExecutionStep::ScheduleOnTimelock {
            queue_proposal(d.proposal, [7u8; 32]).unwrap_or_else(|r| Self::fail(r))
        } else {
            d.proposal
        };
        self.proposals.insert(id, proposal);
    }

    fn cancel_proposal(&mut self, id: u32) {
        let p = self.proposals[&id].clone();
        let p = GovernanceContract::cancel_proposal(p).unwrap_or_else(|r| Self::fail(r));
        self.proposals.insert(id, p);
    }

    fn status(&self, id: u32) -> ProposalStatus {
        self.proposals[&id].status
    }
}

/// The governance set up most tests use: a 10 s voting period, 10% quorum,
/// a supply of 1 000 and a voter holding 600.
fn setup() -> (Gov, AccountId) {
    let mut gov = Gov::new(10, 1_000);
    let voter = acct(2);
    gov.balances.insert(voter.id, 600);
    (gov, voter)
}

const WEEK: u64 = 7 * 24 * 60 * 60;

#[test]
fn test_full_proposal_lifecycle() {
    let mut gov = Gov::new(10, 1_000);
    let voter = acct(2);
    gov.balances.insert(voter.id, 200);
    let id = gov.create_proposal(voter, b"Update fee", [1u8; 32], ProposalAction::UpdateFee(300));
    gov.vote(voter, id, true);
    assert!(gov.votes.contains(&(id, voter.id)));
    gov.now += 11;
    gov.execute_proposal(id);
    assert_eq!(gov.status(id), ProposalStatus::Executed);
}

#[test]
fn test_quorum_failure() {
    let mut gov = Gov::new(10, 10_000);
    let voter = acct(2);
    gov.balances.insert(voter.id, 50);
    let id = gov.create_proposal(voter, b"Raise delay", [2u8; 32], ProposalAction::UpdateAutoRelease(86_400));
    gov.vote(voter, id, true);
    gov.now += 11;
    gov.execute_proposal(id);
    assert_eq!(gov.status(id), ProposalStatus::Failed);
}

#[test]
#[should_panic(expected = "already voted")]
fn test_double_vote_prevention() {
    let mut gov = Gov::new(10, 1_000);
    let voter = acct(2);
    gov.balances.insert(voter.id, 200);
    let id = gov.create_proposal(voter, b"Add asset", [3u8; 32], ProposalAction::AddAsset(acct(40)));
    gov.vote(voter, id, true);
    gov.vote(voter, id, false);
}

#[test]
fn test_delegation_weighted_vote() {
    let mut gov = Gov::new(10, 1_000);
    let voter = acct(2);
    let delegator1 = acct(3);
    let delegator2 = acct(4);
    gov.balances.insert(voter.id, 100);
    gov.balances.insert(delegator1.id, 80);
    gov.balances.insert(delegator2.id, 120);
    gov.delegations.insert(delegator1.id, voter.id);
    gov.delegations.insert(delegator2.id, voter.id);
    let id = gov.create_proposal(voter, b"Delegation weighted vote", [30u8; 32], ProposalAction::UpdateFee(300));
    gov.vote(voter, id, true);
    assert_eq!(gov.vote_weights[&(id, voter.id)], 300, "voter should have 100 own + 200 delegated = 300");
    // a delegation change after the vote does not alter the recorded weight
    gov.delegations.insert(delegator1.id, 99);
    assert_eq!(gov.vote_weights[&(id, voter.id)], 300);
}

#[test]
fn test_voter_who_delegated_away_has_only_delegated_power() {
    let mut gov = Gov::new(10, 1_000);
    let voter = acct(2);
    let delegator = acct(3);
    gov.balances.insert(voter.id, 100);
    gov.balances.insert(delegator.id, 200);
    gov.delegations.insert(voter.id, 77);
    gov.delegations.insert(delegator.id, voter.id);
    let id = gov.create_proposal(voter, b"Delegated away test", [31u8; 32], ProposalAction::UpdateFee(300));
    gov.vote(voter, id, true);
    assert_eq!(gov.vote_weights[&(id, voter.id)], 200, "delegated-away voter should have 0 own + 200 delegated = 200");
}

#[test]
#[should_panic(expected = "call not allowlisted")]
fn test_execute_call_rejected_if_not_allowlisted() {
    let (mut gov, voter) = setup();
    gov.create_proposal(voter, b"Exec call", [9u8; 32], ProposalAction::ExecuteCall(acct(50), "do_thing".to_string(), vec![]));
}

#[test]
#[should_panic(expected = "ExecuteCall timelock not elapsed")]
fn test_execute_call_timelock_enforced() {
    let (mut gov, voter) = setup();
    let target = acct(50);
    gov.allowed.insert((target.id, "do_thing".to_string()));
    let id = gov.create_proposal(voter, b"Exec call", [10u8; 32], ProposalAction::ExecuteCall(target, "do_thing".to_string(), vec![]));
    gov.vote(voter, id, true);
    gov.now += 11;
    gov.execute_proposal(id);
}

#[test]
fn test_execute_call_succeeds_after_timelock() {
    let (mut gov, voter) = setup();
    let target = acct(50);
    gov.allowed.insert((target.id, "do_thing".to_string()));
    let id = gov.create_proposal(voter, b"Exec call", [11u8; 32], ProposalAction::ExecuteCall(target, "do_thing".to_string(), vec![]));
    gov.vote(voter, id, true);
    gov.now += 10 + WEEK + 1;
    gov.execute_proposal(id);
    assert_eq!(gov.status(id), ProposalStatus::Queued);
}

#[test]
fn test_arbitrator_registry_and_selection() {
    let a1 = acct(11);
    let a2 = acct(12);
    let mut list = Vec::new();
    GovernanceContract::register_arbitrator(&mut list, a1);
    GovernanceContract::register_arbitrator(&mut list, a2);
    let page = GovernanceContract::list_arbitrators_page(&list, 0, 10);
    assert_eq!(page.len(), 2);
    let selected = GovernanceContract::select_arbitrator(&list, &vec![true, true], 7).unwrap();
    assert!(selected == a1 || selected == a2);
}

#[test]
#[should_panic(expected = "proposal already cancelled")]
fn test_cancelled_proposal_cannot_be_cancelled_twice() {
    let (mut gov, voter) = setup();
    let id = gov.create_proposal(voter, b"Update fee", [10u8; 32], ProposalAction::UpdateFee(300));
    gov.cancel_proposal(id);
    assert_eq!(gov.status(id), ProposalStatus::Cancelled);
    gov.cancel_proposal(id);
}

#[test]
fn test_update_fee_proposal_executes_immediately() {
    let (mut gov, voter) = setup();
    let id = gov.create_proposal(voter, b"Update fee", [6u8; 32], ProposalAction::UpdateFee(500));
    gov.vote(voter, id, true);
    gov.now += 11;
    gov.execute_proposal(id);
    assert_eq!(gov.status(id), ProposalStatus::Executed);
}

#[test]
fn test_execute_call_transitions_to_queued() {
    let (mut gov, voter) = setup();
    let target = acct(50);
    gov.allowed.insert((target.id, "do_thing".to_string()));
    let id = gov.create_proposal(
        voter,
        b"Execute External Call",
        [13u8; 32],
        ProposalAction::ExecuteCall(target, "do_thing".to_string(), vec![]),
    );
    gov.vote(voter, id, true);
    gov.now += 10 + WEEK + 1;
    gov.execute_proposal(id);
    assert_eq!(gov.status(id), ProposalStatus::Queued);
    assert_eq!(gov.proposals[&id].timelock_op_id, [7u8; 32]);
}

/// The weighted-vote set-up: a week-long vote on a supply of 10 000.
fn setup_weighted_vote_test(voting_period: u64) -> (Gov, AccountId) {
    (Gov::new(voting_period, 10_000), acct(2))
}

const SIX_AND_HALF_DAYS: u64 = 6 * 24 * 60 * 60 + 12 * 60 * 60;

#[test]
fn test_early_voter_80_percent_weight() {
    let (mut gov, voter) = setup_weighted_vote_test(WEEK);
    gov.balances.insert(voter.id, 1000);
    let id = gov.create_proposal(voter, b"Early vote test", [20u8; 32], ProposalAction::UpdateFee(300));
    gov.now += 60 * 60;
    gov.vote(voter, id, true);
    assert_eq!(gov.vote_weights[&(id, voter.id)], 1000, "raw weight should be 1000");
    assert_eq!(gov.weighted_for[&id], 800, "weighted vote should be 800 (80% of 1000)");
    assert_eq!(gov.multipliers[&(id, voter.id)], 8000, "multiplier should be 8000 bps (80%)");
}

#[test]
fn test_mid_voter_100_percent_weight() {
    let (mut gov, voter) = setup_weighted_vote_test(WEEK);
    gov.balances.insert(voter.id, 1000);
    let id = gov.create_proposal(voter, b"Mid vote test", [21u8; 32], ProposalAction::UpdateFee(300));
    gov.now += 3 * 24 * 60 * 60 + 12 * 60 * 60;
    gov.vote(voter, id, true);
    assert_eq!(gov.weighted_for[&id], 1000, "mid vote should be 1000 (100% of 1000)");
    assert_eq!(gov.multipliers[&(id, voter.id)], 10000, "multiplier should be 10000 bps (100%)");
}

#[test]
fn test_late_voter_110_percent_weight() {
    let (mut gov, voter) = setup_weighted_vote_test(WEEK);
    gov.balances.insert(voter.id, 1000);
    let id = gov.create_proposal(voter, b"Late vote test", [22u8; 32], ProposalAction::UpdateFee(300));
    gov.now += SIX_AND_HALF_DAYS;
    gov.vote(voter, id, true);
    assert_eq!(gov.weighted_for[&id], 1100, "late vote should be 1100 (110% of 1000)");
    assert_eq!(gov.multipliers[&(id, voter.id)], 11000, "multiplier should be 11000 bps (110%)");
}

#[test]
fn test_quorum_uses_weighted_totals_not_raw() {
    let (mut gov, voter) = setup_weighted_vote_test(WEEK);
    gov.balances.insert(voter.id, 900);
    let id = gov.create_proposal(voter, b"Quorum with late boost", [23u8; 32], ProposalAction::UpdateFee(300));
    gov.now += SIX_AND_HALF_DAYS;
    gov.vote(voter, id, true);
    gov.now += 12 * 60 * 60 + 1;
    gov.execute_proposal(id);
    assert_eq!(gov.status(id), ProposalStatus::Failed, "990 weighted votes should not meet 10% quorum of 10,000");
}

#[test]
fn test_late_voter_boost_overcomes_raw_deficit() {
    let (mut gov, voter) = setup_weighted_vote_test(WEEK);
    gov.balances.insert(voter.id, 910);
    let id = gov.create_proposal(voter, b"Late boost meets quorum", [24u8; 32], ProposalAction::UpdateFee(300));
    gov.now += SIX_AND_HALF_DAYS;
    gov.vote(voter, id, true);
    gov.now += 12 * 60 * 60 + 1;
    gov.execute_proposal(id);
    assert_eq!(gov.status(id), ProposalStatus::Executed, "1001 weighted votes (910*110%) should meet 10% quorum");
}

#[test]
fn test_weighted_total_gte_raw_total_when_late_voters_dominate() {
    let (mut gov, voter) = setup_weighted_vote_test(WEEK);
    let voter2 = acct(3);
    gov.balances.insert(voter.id, 1000);
    gov.balances.insert(voter2.id, 1000);
    let id = gov.create_proposal(voter, b"Late vs early weight", [25u8; 32], ProposalAction::UpdateFee(300));
    gov.now += 60 * 60;
    gov.vote(voter, id, true);
    gov.now += SIX_AND_HALF_DAYS;
    gov.vote(voter2, id, true);
    let weighted_for = gov.weighted_for[&id];
    assert!(weighted_for < 2000, "with early penalty and late bonus, weighted for 1 early + 1 late should be 1900");
    assert_eq!(weighted_for, 1900, "800 (early) + 1100 (late) = 1900");
}

#[test]
fn test_weighted_total_exceeds_raw_when_all_late() {
    let (mut gov, voter) = setup_weighted_vote_test(WEEK);
    gov.balances.insert(voter.id, 1000);
    let id = gov.create_proposal(voter, b"All late voters", [26u8; 32], ProposalAction::UpdateFee(300));
    gov.now += SIX_AND_HALF_DAYS;
    gov.vote(voter, id, true);
    let weighted_for = gov.weighted_for[&id];
    let raw_for = gov.proposals[&id].votes_for;
    assert!(weighted_for >= raw_for);
    assert_eq!(weighted_for, 1100, "110% of 1000 = 1100");
    assert_eq!(raw_for, 1000, "raw should remain 1000");
}

#[test]
fn test_get_voting_window_early_mid_late() {
    let (mut gov, voter) = setup_weighted_vote_test(100_000);
    gov.balances.insert(voter.id, 100);
    let id = gov.create_proposal(voter, b"Window test", [27u8; 32], ProposalAction::UpdateFee(300));
    let p = gov.proposals[&id].clone();
    let created = p.created_at;
    let w = GovernanceContract::get_voting_window(&p, created + 10_000);
    assert_eq!(w.window, 0, "should be early window");
    assert_eq!(w.weight_bps, 8000, "early weight should be 8000");
    let w = GovernanceContract::get_voting_window(&p, created + 50_000);
    assert_eq!(w.window, 1, "should be mid window");
    assert_eq!(w.weight_bps, 10000, "mid weight should be 10000");
    let w = GovernanceContract::get_voting_window(&p, created + 80_000);
    assert_eq!(w.window, 2, "should be late window");
    assert_eq!(w.weight_bps, 11000, "late weight should be 11000");
}

#[test]
fn test_estimate_governance_vote_cost_is_nonzero_and_view_only() {
    let (mut gov, voter) = setup();
    let id = gov.create_proposal(voter, b"Proposal", [1u8; 32], ProposalAction::UpdateFee(300));
    let estimate = GovernanceContract::estimate_governance_vote_cost(false);
    assert!(estimate.base_instructions > 0);
    assert!(estimate.storage_reads > 0);
    assert!(estimate.storage_writes > 0);
    assert!(estimate.cross_contract_calls > 0);
    gov.vote(voter, id, true);
}

#[test]
fn template_hash_must_match_the_arguments() {
    let (mut gov, voter) = setup();
    let target = acct(50);
    let function = "set_fee_bps".to_string();
    gov.allowed.insert((target.id, function.clone()));
    let args = vec![300u64];
    let good = compute_args_hash(&gov.env, &args);
    let mut templates = HashMap::new();
    templates.insert((target.id, function.clone()), good);
    gov.templates = Some(templates);
    let id = gov.create_proposal(voter, b"fee", [4u8; 32], ProposalAction::ExecuteCall(target, function.clone(), args));
    assert!(!gov.custom.contains(&id));
    let action = ProposalAction::ExecuteCall(target, function.clone(), vec![301u64]);
    let r = prepare_proposal(&gov.env, &action, true, gov.count, Some(Some(good)));
    assert_eq!(r.unwrap_err(), Rejection::ArgsDoNotMatchTemplate);
    // no template registered: a custom proposal, needing the custom quorum
    let r = prepare_proposal(&gov.env, &action, true, gov.count, Some(None)).unwrap();
    assert!(r.custom);
}

#[test]
fn args_hash_is_sha256_of_big_endian_arguments() {
    let env = soroban_sdk::Env::default();
    let args = vec![1u64, 0x0102030405060708];
    let mut bytes = Vec::new();
    for a in &args {
        bytes.extend_from_slice(&a.to_be_bytes());
    }
    let expected = env.crypto().sha256(&soroban_sdk::Bytes::from_slice(&env, &bytes)).to_array();
    assert_eq!(compute_args_hash(&env, &args), expected);
}

#[test]
fn voting_rules_refuse_in_order() {
    let (mut gov, voter) = setup();
    let id = gov.create_proposal(voter, b"t", [0u8; 32], ProposalAction::UpdateFee(1));
    let p = gov.proposals[&id].clone();
    assert_eq!(GovernanceContract::vote(p.clone(), false, 0, false, 0, true, None, 1).unwrap_err(), Rejection::NoVotingPower);
    assert_eq!(GovernanceContract::vote(p.clone(), true, 5, false, 0, true, None, 1).unwrap_err(), Rejection::AlreadyVoted);
    assert_eq!(GovernanceContract::vote(p.clone(), false, 5, false, 0, true, None, 10).unwrap_err(), Rejection::VotingPeriodEnded);
    let cancelled = GovernanceContract::cancel_proposal(p).unwrap();
    assert_eq!(GovernanceContract::vote(cancelled, false, 5, false, 0, true, None, 1).unwrap_err(), Rejection::ProposalNotActive);
}

#[test]
fn execution_refusals() {
    let (mut gov, voter) = setup();
    let id = gov.create_proposal(voter, b"t", [0u8; 32], ProposalAction::UpdateFee(1));
    let p = gov.proposals[&id].clone();
    assert_eq!(
        GovernanceContract::execute_proposal(p.clone(), 5, false, 1000, None, None).unwrap_err(),
        Rejection::VotingPeriodNotEnded
    );
    let failed = GovernanceContract::execute_proposal(p, 11, false, 1000, None, None).unwrap();
    assert_eq!(failed.step, ExecutionStep::Failed);
    assert_eq!(
        GovernanceContract::execute_proposal(failed.proposal.clone(), 12, false, 1000, None, None).unwrap_err(),
        Rejection::ProposalNotExecutable
    );
    assert_eq!(GovernanceContract::cancel_proposal(failed.proposal).unwrap_err(), Rejection::CannotCancelFailed);
}

#[test]
fn queued_proposal_executes_once() {
    let (mut gov, voter) = setup();
    let target = acct(50);
    gov.allowed.insert((target.id, "do_thing".to_string()));
    let id = gov.create_proposal(voter, b"x", [0u8; 32], ProposalAction::ExecuteCall(target, "do_thing".to_string(), vec![]));
    gov.vote(voter, id, true);
    gov.now += 10 + WEEK;
    gov.execute_proposal(id);
    let queued = gov.proposals[&id].clone();
    let done = GovernanceContract::execute_queued_proposal(queued).unwrap();
    assert_eq!(done.status, ProposalStatus::Executed);
    assert_eq!(GovernanceContract::execute_queued_proposal(done).unwrap_err(), Rejection::ProposalNotQueued);
}

#[test]
fn initialization_validates_parameters() {
    assert_eq!(GovernanceContract::initialize(Some(0), None).unwrap_err(), Rejection::InvalidVotingPeriod);
    assert_eq!(GovernanceContract::initialize(None, Some(0)).unwrap_err(), Rejection::InvalidQuorumBps);
    assert_eq!(GovernanceContract::initialize(None, Some(10_001)).unwrap_err(), Rejection::InvalidQuorumBps);
    let c = GovernanceContract::initialize(None, None).unwrap();
    assert_eq!(c.voting_period_secs, 604_800);
    assert_eq!(c.quorum_bps, 1_000);
}

#[test]
fn arbitrator_list_maintenance() {
    let (a, b, c) = (acct(1), acct(2), acct(3));
    let mut list = Vec::new();
    for x in [a, b, c] {
        GovernanceContract::register_arbitrator(&mut list, x);
    }
    GovernanceContract::register_arbitrator(&mut list, b);
    assert_eq!(list, vec![a, b, c]);
    GovernanceContract::unregister_arbitrator(&mut list, a).unwrap();
    assert_eq!(list.len(), 2);
    assert!(list.contains(&b) && list.contains(&c) && !list.contains(&a));
    assert_eq!(GovernanceContract::unregister_arbitrator(&mut list, a).unwrap_err(), Rejection::ArbitratorNotFound);
    assert_eq!(GovernanceContract::list_arbitrators_page(&list, 1, 5).len(), 1);
    assert!(GovernanceContract::list_arbitrators_page(&list, 5, 5).is_empty());
    assert_eq!(GovernanceContract::select_arbitrator(&vec![], &vec![], 1).unwrap_err(), Rejection::NoArbitrators);
    assert_eq!(
        GovernanceContract::select_arbitrator(&list, &vec![false, false], 1).unwrap_err(),
        Rejection::NoActiveArbitrators
    );
    assert_eq!(GovernanceContract::select_arbitrator(&list, &vec![false, true], 0).unwrap(), list[1]);
    GovernanceContract::migrate_arbitrators(&mut list, &vec![a, c, a]);
    assert_eq!(list.len(), 3);
    assert_eq!(list[2], a);
}

#[test]
fn admin_change_needs_the_timelock() {
    let admin = acct(1);
    let next = acct(2);
    let p = GovernanceContract::propose_admin_change(Some(admin), admin, next, 100).unwrap();
    assert_eq!(GovernanceContract::accept_admin_change(Some(p), next, 100).unwrap_err(), Error::AdminChangeNotYetEffective);
    assert_eq!(GovernanceContract::accept_admin_change(Some(p), admin, 100 + 172_800).unwrap_err(), Error::Unauthorized);
    assert_eq!(GovernanceContract::accept_admin_change(Some(p), next, 100 + 172_800).unwrap(), next);
    assert_eq!(GovernanceContract::propose_admin_change(Some(admin), next, next, 0).unwrap_err(), Error::Unauthorized);
}

#[test]
fn plan_proposal_checks_allowlist_template_and_count() {
    let call = ProposalAction::ExecuteCall(AccountId { id: 9 }, "set_fee".to_string(), vec![7]);
    assert_eq!(plan_proposal(&call, false, 0, None, None), Err(Rejection::CallNotAllowlisted));
    assert_eq!(plan_proposal(&call, true, u32::MAX, None, None), Err(Rejection::ProposalOverflow));
    let expected = [5u8; 32];
    assert_eq!(
        plan_proposal(&call, true, 3, Some(Some(expected)), Some([6u8; 32])),
        Err(Rejection::ArgsDoNotMatchTemplate)
    );
    let matched = plan_proposal(&call, true, 3, Some(Some(expected)), Some(expected)).unwrap();
    assert_eq!((matched.id, matched.custom), (4, false));
    let custom = plan_proposal(&call, true, 3, Some(None), None).unwrap();
    assert_eq!((custom.id, custom.custom), (4, true));
    let fee = ProposalAction::UpdateFee(300);
    assert_eq!(plan_proposal(&fee, false, u32::MAX, None, None), Err(Rejection::ProposalOverflow));
    let plain = plan_proposal(&fee, false, 0, None, None).unwrap();
    assert_eq!((plain.id, plain.custom), (1, false));
}

/// A call whose arguments match its registered template is accepted as an
/// ordinary (non-custom) proposal, counts its votes, and runs once the
/// ExecuteCall timelock has passed (before it, execution is refused, as
/// `test_execute_call_timelock_enforced` requires).
#[test]
fn test_execute_call_with_matching_template() {
    let (mut gov, voter) = setup();
    let target = acct(50);
    let args = vec![42u64];
    let args_hash = compute_args_hash(&gov.env, &args);
    let mut templates = HashMap::new();
    templates.insert((target.id, "do_thing".to_string()), args_hash);
    gov.templates = Some(templates);
    gov.allowed.insert((target.id, "do_thing".to_string()));
    let id = gov.create_proposal(voter, b"Exec call", [8u8; 32], ProposalAction::ExecuteCall(target, "do_thing".to_string(), args));
    assert!(!gov.custom.contains(&id));
    assert_eq!(gov.status(id), ProposalStatus::Active);
    gov.vote(voter, id, true);
    assert_eq!(gov.proposals[&id].votes_for, 600);
    gov.now += 11;
    let early = GovernanceContract::execute_proposal(
        gov.proposals[&id].clone(),
        gov.now,
        false,
        gov.config.quorum_bps,
        gov.weighted_for.get(&id).copied(),
        gov.weighted_against.get(&id).copied(),
    );
    assert_eq!(early.unwrap_err(), Rejection::ExecuteCallTimelockNotElapsed);
    gov.now += WEEK;
    gov.execute_proposal(id);
    assert_eq!(gov.status(id), ProposalStatus::Queued);
}
