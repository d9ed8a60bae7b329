//! Mentor and learner reputation: rating tallies, slash penalties and
//! rehabilitation, loyalty tiers, review disputes and hash-committed
//! rating-threshold proofs.
use vstd::prelude::*;
use crate::types::{AccountId, Hash32, sat_sub, drop_front, copy_from};
use crate::hashing::{sha256, sha256_digest};

verus! {

/// How long after a review its mentor may dispute it: 14 days.
pub const REVIEW_DISPUTE_WINDOW_SECS: u64 = 1209600;
/// Fee for filing a review dispute (10 MNT in stroops).
pub const DISPUTE_FILING_FEE: i128 = 10000000;
pub const TIER_SILVER: u32 = 100;
pub const TIER_GOLD: u32 = 500;
pub const TIER_PLATINUM: u32 = 1000;
/// Review-pattern risk score from which a review is flagged for investigation.
pub const INVESTIGATION_RISK_SCORE: u32 = 60;
/// How many recent reviews of a mentor the review-pattern analysis sees.
pub const REVIEW_SIGNAL_WINDOW: usize = 10;

/// Running sum and count of the ratings a user has received.
#[derive(Clone, Copy, Debug, PartialEq, Eq, Structural)]
pub struct RatingTally {
    pub sum: u64,
    pub count: u64,
}

/// A mentor's slash penalty and whether it was halved by rehabilitation.
#[derive(Clone, Copy, Debug, PartialEq, Eq, Structural)]
pub struct SlashStatus {
    pub penalty_bps: u64,
    pub rehabilitated: bool,
}

/// Why a reputation request is refused (each aborts the transaction).
#[derive(Clone, Copy, Debug, PartialEq, Eq, Structural)]
pub enum Rejection {
    AlreadyInitialized,
    NotInitialized,
    Unauthorized,
    InvalidRating,
    DuplicateReview,
    DuplicateLearnerReview,
    SessionNotReleased,
    StakeOverflow,
    SumOverflow,
    CountOverflow,
    ReviewNotFound,
    DisputeWindowExpired,
    DisputeAlreadyFiled,
    DisputeNotFound,
    DisputeAlreadyResolved,
    RatingBelowThreshold,
    InvalidReputationProof,
}

/// The message a `Rejection` aborts the transaction with.
pub open spec fn rejection_message(r: Rejection) -> Seq<char> {
    match r {
        Rejection::AlreadyInitialized => "Already initialized"@,
        Rejection::NotInitialized => "Not initialized"@,
        Rejection::Unauthorized => "Unauthorized"@,
        Rejection::InvalidRating => "InvalidRating"@,
        Rejection::DuplicateReview => "DuplicateReview"@,
        Rejection::DuplicateLearnerReview => "DuplicateLearnerReview"@,
        Rejection::SessionNotReleased => "SessionNotReleased"@,
        Rejection::StakeOverflow => "StakeOverflow"@,
        Rejection::SumOverflow => "sum overflow"@,
        Rejection::CountOverflow => "count overflow"@,
        Rejection::ReviewNotFound => "Review not found"@,
        Rejection::DisputeWindowExpired => "Dispute window expired"@,
        Rejection::DisputeAlreadyFiled => "Dispute already filed"@,
        Rejection::DisputeNotFound => "Dispute not found"@,
        Rejection::DisputeAlreadyResolved => "Dispute already resolved"@,
        Rejection::RatingBelowThreshold => "Rating below threshold"@,
        Rejection::InvalidReputationProof => "InvalidReputationProof"@,
    }
}

impl Rejection {
    /// The message the transaction aborts with.
    pub fn message(&self) -> (m: &'static str)
        ensures
            m@ == rejection_message(*self),
    {
        match self {
            Rejection::AlreadyInitialized => "Already initialized",
            Rejection::NotInitialized => "Not initialized",
            Rejection::Unauthorized => "Unauthorized",
            Rejection::InvalidRating => "InvalidRating",
            Rejection::DuplicateReview => "DuplicateReview",
            Rejection::DuplicateLearnerReview => "DuplicateLearnerReview",
            Rejection::SessionNotReleased => "SessionNotReleased",
            Rejection::StakeOverflow => "StakeOverflow",
            Rejection::SumOverflow => "sum overflow",
            Rejection::CountOverflow => "count overflow",
            Rejection::ReviewNotFound => "Review not found",
            Rejection::DisputeWindowExpired => "Dispute window expired",
            Rejection::DisputeAlreadyFiled => "Dispute already filed",
            Rejection::DisputeNotFound => "Dispute not found",
            Rejection::DisputeAlreadyResolved => "Dispute already resolved",
            Rejection::RatingBelowThreshold => "Rating below threshold",
            Rejection::InvalidReputationProof => "InvalidReputationProof",
        }
    }
}

/// A learner's review of a mentor.
#[derive(Debug)]
pub struct ReviewRecord {
    pub session_id: String,
    pub mentor: AccountId,
    pub learner: AccountId,
    pub rating: u32,
    pub timestamp: u64,
    pub comment_hash: Hash32,
    pub stake_amount: i128,
    pub investigation_required: bool,
}

/// A mentor's review of a learner's participation.
#[derive(Debug)]
pub struct LearnerReviewRecord {
    pub session_id: String,
    pub mentor: AccountId,
    pub learner: AccountId,
    pub participation_rating: u32,
    pub comment_hash: Hash32,
    pub submitted_at: u64,
}

/// Where a review dispute stands.
#[derive(Clone, Copy, Debug, PartialEq, Eq, Structural)]
pub enum DisputeStatus {
    Pending,
    Removed,
    Adjusted,
    Rejected,
}

/// A mentor's challenge of a review.
#[derive(Debug)]
pub struct ReviewDispute {
    pub mentor: AccountId,
    pub learner: AccountId,
    pub review_session_id: String,
    pub dispute_reason_hash: Hash32,
    pub filed_at: u64,
    pub status: DisputeStatus,
}

/// The kind of claim a threshold proof makes.
#[derive(Clone, Copy, Debug, PartialEq, Eq, Structural)]
pub enum ProofKind {
    RatingThreshold,
    Other,
}

/// A commitment that a mentor's rating reaches `threshold`, without
/// revealing the rating.
#[derive(Clone, Copy, Debug)]
pub struct ReputationThresholdProof {
    pub commitment: Hash32,
    pub threshold: u32,
    pub proof_type: ProofKind,
}

/// A review's rating lies in 1..=5.
pub open spec fn valid_rating(rating: u32) -> bool {
    1 <= rating <= 5
}

/// Every tallied rating lies in 1..=5, so the sum lies between the count
/// and five times the count.
pub open spec fn tally_consistent(t: RatingTally) -> bool {
    t.count <= t.sum <= 5 * t.count
}

/// The tally after one more rating.
pub open spec fn add_rating(t: RatingTally, rating: u32) -> RatingTally {
    RatingTally { sum: (t.sum + rating) as u64, count: (t.count + 1) as u64 }
}

/// The tally after a review with `rating` is removed (each part clamped at 0).
pub open spec fn remove_rating(t: RatingTally, rating: u32) -> RatingTally {
    RatingTally { sum: sat_sub(t.sum, rating as u64), count: sat_sub(t.count, 1) }
}

/// Whether one more rating fits in the tally's counters.
pub open spec fn can_add(t: RatingTally, rating: u32) -> bool {
    t.sum + rating <= u64::MAX && t.count + 1 <= u64::MAX
}

/// The average rating times 100 (0 without reviews).
pub open spec fn average_x100(t: RatingTally) -> int {
    if t.count == 0 { 0 } else { (t.sum * 100) / (t.count as int) }
}

/// The penalty in force: the slash penalty, halved after rehabilitation.
pub open spec fn effective_penalty_bps(s: SlashStatus) -> int {
    if s.rehabilitated { (s.penalty_bps / 2) as int } else { s.penalty_bps as int }
}

/// A mentor's (average rating times 100, review count) after the penalty.
pub open spec fn mentor_rating(t: RatingTally, s: SlashStatus) -> (int, int) {
    if t.count == 0 {
        (0, 0)
    } else if effective_penalty_bps(s) >= 10000 {
        (0, t.count as int)
    } else {
        (average_x100(t) * (10000 - effective_penalty_bps(s)) / 10000, t.count as int)
    }
}

/// Whether the rating arithmetic stays within `u64`.
pub open spec fn mentor_rating_fits(t: RatingTally, s: SlashStatus) -> bool {
    t.count > 0 ==> {
        &&& t.sum * 100 <= u64::MAX
        &&& effective_penalty_bps(s) < 10000 ==> average_x100(t) * (10000 - effective_penalty_bps(s)) <= u64::MAX
    }
}

/// The compounding slash penalty for the n-th slash, in basis points.
pub open spec fn slash_penalty_bps(slash_count: u32) -> u64 {
    if slash_count == 0 {
        0
    } else if slash_count == 1 {
        500
    } else if slash_count == 2 {
        1500
    } else if slash_count == 3 {
        3000
    } else {
        (slash_count * 1500) as u64
    }
}

/// The deposit locked with a review: the base amount times the rating, counted as 1 when 0.
pub open spec fn review_stake(base: i128, rating: u32) -> int {
    if base == 0 { 0 } else { base * (if rating >= 1 { rating as int } else { 1 }) }
}

/// Loyalty tier for a point total: 0 none, 1 silver, 2 gold, 3 platinum.
pub open spec fn loyalty_tier(total: int) -> u32 {
    if total >= TIER_PLATINUM {
        3
    } else if total >= TIER_GOLD {
        2
    } else if total >= TIER_SILVER {
        1
    } else {
        0
    }
}

/// Fee discount of a loyalty tier, in basis points.
pub open spec fn loyalty_discount(tier: u32) -> u32 {
    if tier == 1 {
        500
    } else if tier == 2 {
        1000
    } else if tier == 3 {
        1500
    } else {
        0
    }
}

/// Big-endian encoding of a `u32`.
pub open spec fn u32_be_bytes(x: u32) -> Seq<u8> {
    seq![(x >> 24u32) as u8, (x >> 16u32) as u8, (x >> 8u32) as u8, x as u8]
}

/// The bytes committed to by a threshold proof: the rating, then the nonce.
pub open spec fn rating_commit_bytes(rating: u32, nonce: Seq<u8>) -> Seq<u8> {
    u32_be_bytes(rating) + nonce
}

/// Whether `proof` opens to `rating` under `nonce` and `rating` reaches
/// its threshold.
pub open spec fn threshold_proof_valid(proof: ReputationThresholdProof, rating: u32, nonce: Seq<u8>) -> bool {
    &&& rating >= proof.threshold
    &&& proof.commitment@ == sha256_digest(rating_commit_bytes(rating, nonce))
    &&& proof.proof_type == ProofKind::RatingThreshold
}

/// The whole-number rating a mentor's average represents.
pub open spec fn whole_rating(avg_x100: int) -> u32 {
    (avg_x100 / 100) as u32
}

/// SHA-256 of the rating's big-endian bytes followed by the nonce.
fn commit_rating(env: &soroban_sdk::Env, rating: u32, nonce: &Hash32) -> (h: Hash32)
    ensures
        h@ == sha256_digest(rating_commit_bytes(rating, nonce@)),
{
    let mut buf: Vec<u8> = Vec::new();
    buf.push((rating >> 24u32) as u8);
    buf.push((rating >> 16u32) as u8);
    buf.push((rating >> 8u32) as u8);
    buf.push(rating as u8);
    let mut i: usize = 0;
    while i < 32
        invariant
            0 <= i <= 32,
            nonce@.len() == 32,
            buf@ == u32_be_bytes(rating) + nonce@.take(i as int),
        decreases 32 - i,
    {
        buf.push(nonce[i]);
        proof {
            assert(nonce@.take(i + 1) =~= nonce@.take(i as int).push(nonce@[i as int]));
        }
        i = i + 1;
    }
    assert(nonce@.take(32) =~= nonce@);
    sha256(env, &buf)
}

/// The reputation contract's entry points.
pub struct ReputationContract;

impl ReputationContract {
    /// The contract is set up once.
    pub fn initialize(already_initialized: bool) -> (r: Result<(), Rejection>)
        ensures
            already_initialized <==> r == Err::<(), Rejection>(Rejection::AlreadyInitialized),
            !already_initialized <==> r is Ok,
    {
        if already_initialized { Err(Rejection::AlreadyInitialized) } else { Ok(()) }
    }

    /// Only the escrow contract configures review staking, with a positive
    /// base stake.
    pub fn configure_review_security(escrow: Option<AccountId>, admin: AccountId, base_stake: i128) -> (r: Result<(), Rejection>)
        ensures
            escrow is None ==> r == Err::<(), Rejection>(Rejection::NotInitialized),
            escrow matches Some(e) ==> (r is Ok <==> (admin == e && base_stake > 0)),
            escrow is Some && r is Err ==> r == Err::<(), Rejection>(Rejection::Unauthorized),
    {
        let e = match escrow {
            Some(e) => e,
            None => return Err(Rejection::NotInitialized),
        };
        if admin != e || base_stake <= 0 {
            return Err(Rejection::Unauthorized);
        }
        Ok(())
    }

    /// Whether the session registry's completion proof backs a review: it
    /// must name the review's mentor and learner, and its commitment must
    /// equal the interaction commitment recomputed for the session
    /// (`commitment_matches`).
    pub fn validate_completion_proof(
        proof_mentor: AccountId,
        proof_learner: AccountId,
        commitment_matches: bool,
        mentor: AccountId,
        learner: AccountId,
    ) -> (r: Result<(), Rejection>)
        ensures
            r is Ok <==> (proof_mentor == mentor && proof_learner == learner && commitment_matches),
            r is Err ==> r == Err::<(), Rejection>(Rejection::InvalidReputationProof),
    {
        if proof_mentor != mentor || proof_learner != learner || !commitment_matches {
            Err(Rejection::InvalidReputationProof)
        } else {
            Ok(())
        }
    }

    /// A learner reviews the mentor of a released session: the review
    /// record to store and the mentor's new tally.
    ///
    /// `proof_valid` is the verdict of `validate_completion_proof` on the
    /// session registry's completion proof (true when no registry is
    /// configured).
    pub fn submit_review(
        session_id: String,
        mentor: AccountId,
        learner: AccountId,
        rating: u32,
        comment_hash: Hash32,
        now: u64,
        already_reviewed: bool,
        escrow_released: bool,
        proof_valid: bool,
        stake_base: i128,
        risk_score: u32,
        tally: RatingTally,
    ) -> (r: Result<(ReviewRecord, RatingTally), Rejection>)
        ensures
            !valid_rating(rating) ==> r == Err::<(ReviewRecord, RatingTally), Rejection>(Rejection::InvalidRating),
            valid_rating(rating) && already_reviewed ==> r == Err::<(ReviewRecord, RatingTally), Rejection>(Rejection::DuplicateReview),
            valid_rating(rating) && !already_reviewed && !escrow_released
                ==> r == Err::<(ReviewRecord, RatingTally), Rejection>(Rejection::SessionNotReleased),
            valid_rating(rating) && !already_reviewed && escrow_released && !proof_valid
                ==> r == Err::<(ReviewRecord, RatingTally), Rejection>(Rejection::InvalidReputationProof),
            valid_rating(rating) && !already_reviewed && escrow_released && proof_valid
                && !(i128::MIN <= review_stake(stake_base, rating) <= i128::MAX)
                ==> r == Err::<(ReviewRecord, RatingTally), Rejection>(Rejection::StakeOverflow),
            valid_rating(rating) && !already_reviewed && escrow_released && proof_valid
                && i128::MIN <= review_stake(stake_base, rating) <= i128::MAX
                && tally.sum + rating > u64::MAX ==> r == Err::<(ReviewRecord, RatingTally), Rejection>(Rejection::SumOverflow),
            valid_rating(rating) && !already_reviewed && escrow_released && proof_valid
                && i128::MIN <= review_stake(stake_base, rating) <= i128::MAX
                && tally.sum + rating <= u64::MAX && tally.count == u64::MAX
                ==> r == Err::<(ReviewRecord, RatingTally), Rejection>(Rejection::CountOverflow),
            valid_rating(rating) && !already_reviewed && escrow_released && proof_valid
                && i128::MIN <= review_stake(stake_base, rating) <= i128::MAX
                && can_add(tally, rating) ==> r is Ok,
            r matches Ok((rec, next)) ==> {
                &&& next == add_rating(tally, rating)
                &&& rec == (ReviewRecord {
                    session_id,
                    mentor,
                    learner,
                    rating,
                    timestamp: now,
                    comment_hash,
                    stake_amount: review_stake(stake_base, rating) as i128,
                    investigation_required: risk_score >= INVESTIGATION_RISK_SCORE,
                })
            },
    {
        if rating < 1 || rating > 5 {
            return Err(Rejection::InvalidRating);
        }
        if already_reviewed {
            return Err(Rejection::DuplicateReview);
        }
        if !escrow_released {
            return Err(Rejection::SessionNotReleased);
        }
        if !proof_valid {
            return Err(Rejection::InvalidReputationProof);
        }
        let stake_amount: i128 = if stake_base == 0 {
            0
        } else {
            let m: u32 = if rating >= 1 { rating } else { 1 };
            match stake_base.checked_mul(m as i128) {
                Some(a) => a,
                None => return Err(Rejection::StakeOverflow),
            }
        };
        let new_sum = match tally.sum.checked_add(rating as u64) {
            Some(s) => s,
            None => return Err(Rejection::SumOverflow),
        };
        let new_count = match tally.count.checked_add(1) {
            Some(c) => c,
            None => return Err(Rejection::CountOverflow),
        };
        let rec = ReviewRecord {
            session_id,
            mentor,
            learner,
            rating,
            timestamp: now,
            comment_hash,
            stake_amount,
            investigation_required: risk_score >= INVESTIGATION_RISK_SCORE,
        };
        Ok((rec, RatingTally { sum: new_sum, count: new_count }))
    }

    /// A mentor reviews the participation of a released session's learner:
    /// the record to store and the learner's new tally.
    pub fn submit_learner_review(
        mentor: AccountId,
        session_id: String,
        learner: AccountId,
        participation_rating: u32,
        comment_hash: Hash32,
        now: u64,
        already_reviewed: bool,
        escrow_released: bool,
        tally: RatingTally,
    ) -> (r: Result<(LearnerReviewRecord, RatingTally), Rejection>)
        ensures
            !valid_rating(participation_rating)
                ==> r == Err::<(LearnerReviewRecord, RatingTally), Rejection>(Rejection::InvalidRating),
            valid_rating(participation_rating) && already_reviewed
                ==> r == Err::<(LearnerReviewRecord, RatingTally), Rejection>(Rejection::DuplicateLearnerReview),
            valid_rating(participation_rating) && !already_reviewed && !escrow_released
                ==> r == Err::<(LearnerReviewRecord, RatingTally), Rejection>(Rejection::SessionNotReleased),
            valid_rating(participation_rating) && !already_reviewed && escrow_released && tally.sum + participation_rating > u64::MAX
                ==> r == Err::<(LearnerReviewRecord, RatingTally), Rejection>(Rejection::SumOverflow),
            valid_rating(participation_rating) && !already_reviewed && escrow_released && tally.sum + participation_rating <= u64::MAX
                && tally.count == u64::MAX ==> r == Err::<(LearnerReviewRecord, RatingTally), Rejection>(Rejection::CountOverflow),
            valid_rating(participation_rating) && !already_reviewed && escrow_released && can_add(tally, participation_rating)
                ==> r is Ok,
            r matches Ok((rec, next)) ==> {
                &&& next == add_rating(tally, participation_rating)
                &&& rec == (LearnerReviewRecord {
                    session_id,
                    mentor,
                    learner,
                    participation_rating,
                    comment_hash,
                    submitted_at: now,
                })
            },
    {
        if participation_rating < 1 || participation_rating > 5 {
            return Err(Rejection::InvalidRating);
        }
        if already_reviewed {
            return Err(Rejection::DuplicateLearnerReview);
        }
        if !escrow_released {
            return Err(Rejection::SessionNotReleased);
        }
        let new_sum = match tally.sum.checked_add(participation_rating as u64) {
            Some(s) => s,
            None => return Err(Rejection::SumOverflow),
        };
        let new_count = match tally.count.checked_add(1) {
            Some(c) => c,
            None => return Err(Rejection::CountOverflow),
        };
        let rec = LearnerReviewRecord { session_id, mentor, learner, participation_rating, comment_hash, submitted_at: now };
        Ok((rec, RatingTally { sum: new_sum, count: new_count }))
    }

    /// The recent-review window after one more review: the review's time
    /// and rating are appended and the oldest entries dropped, as many as
    /// the timestamps exceed the window.
    pub fn record_behavior(timestamps: &Vec<u64>, ratings: &Vec<u32>, now: u64, rating: u32) -> (r: (Vec<u64>, Vec<u32>))
        requires
            timestamps@.len() < usize::MAX,
            ratings@.len() < usize::MAX,
        ensures
            r.0@ == drop_front(timestamps@.push(now), timestamps@.len() + 1 - REVIEW_SIGNAL_WINDOW),
            r.1@ == drop_front(ratings@.push(rating), timestamps@.len() + 1 - REVIEW_SIGNAL_WINDOW),
    {
        let mut ts = copy_from(timestamps, 0);
        ts.push(now);
        let mut rs = copy_from(ratings, 0);
        rs.push(rating);
        let excess: usize = if ts.len() > REVIEW_SIGNAL_WINDOW { ts.len() - REVIEW_SIGNAL_WINDOW } else { 0 };
        (copy_from(&ts, excess), copy_from(&rs, excess))
    }

    /// A mentor's (average rating times 100, review count), reduced by the
    /// slash penalty in force.
    pub fn get_mentor_rating(tally: RatingTally, slash: SlashStatus) -> (r: (u64, u64))
        requires
            mentor_rating_fits(tally, slash),
        ensures
            r.0 == mentor_rating(tally, slash).0,
            r.1 == mentor_rating(tally, slash).1,
    {
        if tally.count == 0 {
            return (0, 0);
        }
        let raw_avg = (tally.sum * 100) / tally.count;
        let mut penalty_bps = slash.penalty_bps;
        if slash.rehabilitated {
            penalty_bps = penalty_bps / 2;
        }
        if penalty_bps >= 10000 {
            return (0, tally.count);
        }
        let final_avg = (raw_avg * (10000 - penalty_bps)) / 10000;
        (final_avg, tally.count)
    }

    /// A learner's (average participation rating times 100, review count).
    pub fn get_learner_rating(tally: RatingTally) -> (r: (u64, u64))
        requires
            tally.count > 0 ==> tally.sum * 100 <= u64::MAX,
        ensures
            r.0 == average_x100(tally),
            r.1 == tally.count,
    {
        if tally.count == 0 {
            return (0, 0);
        }
        ((tally.sum * 100) / tally.count, tally.count)
    }

    /// The unpenalised average rating times 100, truncated to 32 bits.
    pub fn calculate_average_rating(tally: RatingTally) -> (avg: u32)
        requires
            tally.count > 0 ==> tally.sum * 100 <= u64::MAX,
        ensures
            avg == average_x100(tally) as u32,
    {
        if tally.count == 0 {
            0
        } else {
            ((tally.sum * 100) / tally.count) as u32
        }
    }

    /// The penalty after a mentor's n-th slash; any earlier rehabilitation
    /// is cleared.
    pub fn apply_slash_penalty(slash_count: u32) -> (s: SlashStatus)
        ensures
            s.penalty_bps == slash_penalty_bps(slash_count),
            !s.rehabilitated,
    {
        let bps: u64 = if slash_count == 0 {
            0
        } else if slash_count == 1 {
            500
        } else if slash_count == 2 {
            1500
        } else if slash_count == 3 {
            3000
        } else {
            (slash_count as u64) * 1500
        };
        SlashStatus { penalty_bps: bps, rehabilitated: false }
    }

    /// A mentor who completed ten perfect sessions after re-bonding has
    /// the penalty halved.
    pub fn rehabilitate_mentor(slash: &mut SlashStatus)
        ensures
            final(slash).penalty_bps == old(slash).penalty_bps,
            final(slash).rehabilitated,
    {
        slash.rehabilitated = true;
    }

    /// Add loyalty points: the new total and the tier it earns.
    pub fn accrue_loyalty_points(current: u32, points: u32) -> (r: (u32, u32))
        requires
            current + points <= u32::MAX,
        ensures
            r.0 == current + points,
            r.1 == loyalty_tier(current + points),
    {
        let total = current + points;
        let tier: u32 = if total >= TIER_PLATINUM {
            3
        } else if total >= TIER_GOLD {
            2
        } else if total >= TIER_SILVER {
            1
        } else {
            0
        };
        (total, tier)
    }

    /// The fee discount of a loyalty tier, in basis points.
    pub fn get_loyalty_discount_bps(tier: u32) -> (bps: u32)
        ensures
            bps == loyalty_discount(tier),
    {
        if tier == 1 {
            500
        } else if tier == 2 {
            1000
        } else if tier == 3 {
            1500
        } else {
            0
        }
    }

    /// Record one more rating for a user: the new tally and its average
    /// times 100.
    pub fn update_reputation(tally: RatingTally, new_rating: u32) -> (r: Result<(RatingTally, u64), Rejection>)
        requires
            valid_rating(new_rating) && can_add(tally, new_rating) ==> (tally.sum + new_rating) * 100 <= u64::MAX,
        ensures
            !valid_rating(new_rating) ==> r == Err::<(RatingTally, u64), Rejection>(Rejection::InvalidRating),
            valid_rating(new_rating) && tally.sum + new_rating > u64::MAX
                ==> r == Err::<(RatingTally, u64), Rejection>(Rejection::SumOverflow),
            valid_rating(new_rating) && tally.sum + new_rating <= u64::MAX && tally.count == u64::MAX
                ==> r == Err::<(RatingTally, u64), Rejection>(Rejection::CountOverflow),
            valid_rating(new_rating) && can_add(tally, new_rating) ==> r == Ok::<(RatingTally, u64), Rejection>(
                (add_rating(tally, new_rating), average_x100(add_rating(tally, new_rating)) as u64),
            ),
    {
        if new_rating < 1 || new_rating > 5 {
            return Err(Rejection::InvalidRating);
        }
        let new_sum = match tally.sum.checked_add(new_rating as u64) {
            Some(s) => s,
            None => return Err(Rejection::SumOverflow),
        };
        let new_count = match tally.count.checked_add(1) {
            Some(c) => c,
            None => return Err(Rejection::CountOverflow),
        };
        let updated_avg = (new_sum * 100) / new_count;
        Ok((RatingTally { sum: new_sum, count: new_count }, updated_avg))
    }

    /// Replace a user's tally with a legacy average and count.
    pub fn migrate_legacy_rating(legacy_rating: u32, legacy_count: u32) -> (t: RatingTally)
        ensures
            t.sum == legacy_rating * legacy_count,
            t.count == legacy_count,
    {
        assert(legacy_rating * legacy_count <= u32::MAX * u32::MAX) by (nonlinear_arith);
        RatingTally { sum: (legacy_rating as u64) * (legacy_count as u64), count: legacy_count as u64 }
    }

    /// The reviewed mentor disputes a review within 14 days of it, once.
    pub fn file_review_dispute(
        review: Option<ReviewRecord>,
        mentor: AccountId,
        session_id: String,
        reason_hash: Hash32,
        now: u64,
        dispute_exists: bool,
    ) -> (r: Result<ReviewDispute, Rejection>)
        requires
            review matches Some(rv) ==> rv.timestamp + REVIEW_DISPUTE_WINDOW_SECS <= u64::MAX,
        ensures
            review is None ==> r == Err::<ReviewDispute, Rejection>(Rejection::ReviewNotFound),
            match review {
                None => true,
                Some(rv) => {
                    &&& rv.mentor != mentor ==> r == Err::<ReviewDispute, Rejection>(Rejection::Unauthorized)
                    &&& rv.mentor == mentor && now > rv.timestamp + REVIEW_DISPUTE_WINDOW_SECS
                        ==> r == Err::<ReviewDispute, Rejection>(Rejection::DisputeWindowExpired)
                    &&& rv.mentor == mentor && now <= rv.timestamp + REVIEW_DISPUTE_WINDOW_SECS && dispute_exists
                        ==> r == Err::<ReviewDispute, Rejection>(Rejection::DisputeAlreadyFiled)
                    &&& rv.mentor == mentor && now <= rv.timestamp + REVIEW_DISPUTE_WINDOW_SECS && !dispute_exists
                        ==> r == Ok::<ReviewDispute, Rejection>(ReviewDispute {
                            mentor,
                            learner: rv.learner,
                            review_session_id: session_id,
                            dispute_reason_hash: reason_hash,
                            filed_at: now,
                            status: DisputeStatus::Pending,
                        })
                },
            },
    {
        let rv = match review {
            Some(rv) => rv,
            None => return Err(Rejection::ReviewNotFound),
        };
        if rv.mentor != mentor {
            return Err(Rejection::Unauthorized);
        }
        if now > rv.timestamp + REVIEW_DISPUTE_WINDOW_SECS {
            return Err(Rejection::DisputeWindowExpired);
        }
        if dispute_exists {
            return Err(Rejection::DisputeAlreadyFiled);
        }
        Ok(ReviewDispute {
            mentor,
            learner: rv.learner,
            review_session_id: session_id,
            dispute_reason_hash: reason_hash,
            filed_at: now,
            status: DisputeStatus::Pending,
        })
    }

    /// An arbitrator settles a pending dispute: remove the review, adjust
    /// its rating, or reject the dispute.  Returns the settled dispute, the
    /// review as it now stands (`None` once removed) and the mentor's tally.
    pub fn resolve_review_dispute(
        dispute: Option<ReviewDispute>,
        review: Option<ReviewRecord>,
        tally: RatingTally,
        remove_review: bool,
        adjusted_rating: Option<u32>,
    ) -> (r: Result<(ReviewDispute, Option<ReviewRecord>, RatingTally), Rejection>)
        ensures
            dispute is None ==> r == Err::<(ReviewDispute, Option<ReviewRecord>, RatingTally), Rejection>(Rejection::DisputeNotFound),
            dispute matches Some(d) && d.status != DisputeStatus::Pending
                ==> r == Err::<(ReviewDispute, Option<ReviewRecord>, RatingTally), Rejection>(Rejection::DisputeAlreadyResolved),
            dispute matches Some(d) && d.status == DisputeStatus::Pending && review is None
                ==> r == Err::<(ReviewDispute, Option<ReviewRecord>, RatingTally), Rejection>(Rejection::ReviewNotFound),
            match (dispute, review) {
                (Some(d), Some(rv)) => d.status == DisputeStatus::Pending ==> {
                    if remove_review {
                        r == Ok::<(ReviewDispute, Option<ReviewRecord>, RatingTally), Rejection>((
                            ReviewDispute { status: DisputeStatus::Removed, ..d },
                            None,
                            remove_rating(tally, rv.rating),
                        ))
                    } else {
                        match adjusted_rating {
                            Some(new_rating) => if sat_sub(tally.sum, rv.rating as u64) + new_rating > u64::MAX {
                                r == Err::<(ReviewDispute, Option<ReviewRecord>, RatingTally), Rejection>(Rejection::SumOverflow)
                            } else {
                                r == Ok::<(ReviewDispute, Option<ReviewRecord>, RatingTally), Rejection>((
                                    ReviewDispute { status: DisputeStatus::Adjusted, ..d },
                                    Some(ReviewRecord { rating: new_rating, ..rv }),
                                    RatingTally { sum: (sat_sub(tally.sum, rv.rating as u64) + new_rating) as u64, count: tally.count },
                                ))
                            },
                            None => r == Ok::<(ReviewDispute, Option<ReviewRecord>, RatingTally), Rejection>((
                                ReviewDispute { status: DisputeStatus::Rejected, ..d },
                                Some(rv),
                                tally,
                            )),
                        }
                    }
                },
                _ => true,
            },
    {
        let mut d = match dispute {
            Some(d) => d,
            None => return Err(Rejection::DisputeNotFound),
        };
        if d.status != DisputeStatus::Pending {
            return Err(Rejection::DisputeAlreadyResolved);
        }
        let mut rv = match review {
            Some(rv) => rv,
            None => return Err(Rejection::ReviewNotFound),
        };
        let reduced_sum = tally.sum.saturating_sub(rv.rating as u64);
        if remove_review {
            d.status = DisputeStatus::Removed;
            let next = RatingTally { sum: reduced_sum, count: tally.count.saturating_sub(1) };
            Ok((d, None, next))
        } else {
            match adjusted_rating {
                Some(new_rating) => {
                    let sum = match reduced_sum.checked_add(new_rating as u64) {
                        Some(s) => s,
                        None => return Err(Rejection::SumOverflow),
                    };
                    rv.rating = new_rating;
                    d.status = DisputeStatus::Adjusted;
                    Ok((d, Some(rv), RatingTally { sum, count: tally.count }))
                },
                None => {
                    d.status = DisputeStatus::Rejected;
                    Ok((d, Some(rv), tally))
                },
            }
        }
    }

    /// Commit to a mentor's whole-number rating if it reaches `min_rating`.
    pub fn generate_threshold_proof(
        env: &soroban_sdk::Env,
        tally: RatingTally,
        slash: SlashStatus,
        min_rating: u32,
        secret_nonce: Hash32,
    ) -> (r: Result<ReputationThresholdProof, Rejection>)
        requires
            mentor_rating_fits(tally, slash),
        ensures
            whole_rating(mentor_rating(tally, slash).0) < min_rating
                ==> r == Err::<ReputationThresholdProof, Rejection>(Rejection::RatingBelowThreshold),
            whole_rating(mentor_rating(tally, slash).0) >= min_rating ==> r is Ok,
            r matches Ok(p) ==> {
                &&& p.commitment@ == sha256_digest(rating_commit_bytes(whole_rating(mentor_rating(tally, slash).0), secret_nonce@))
                &&& p.threshold == min_rating
                &&& p.proof_type == ProofKind::RatingThreshold
            },
    {
        let (avg_rating, _count) = Self::get_mentor_rating(tally, slash);
        let actual_rating = (avg_rating / 100) as u32;
        if actual_rating < min_rating {
            return Err(Rejection::RatingBelowThreshold);
        }
        let commitment = commit_rating(env, actual_rating, &secret_nonce);
        Ok(ReputationThresholdProof { commitment, threshold: min_rating, proof_type: ProofKind::RatingThreshold })
    }

    /// Check a threshold proof against a revealed rating and nonce.
    pub fn verify_threshold_proof(
        env: &soroban_sdk::Env,
        proof: &ReputationThresholdProof,
        actual_rating: u32,
        secret_nonce: &Hash32,
    ) -> (ok: bool)
        ensures
            ok == threshold_proof_valid(*proof, actual_rating, secret_nonce@),
    {
        if actual_rating < proof.threshold {
            return false;
        }
        let commitment = commit_rating(env, actual_rating, secret_nonce);
        Self::check_threshold_proof(proof, actual_rating, &commitment)
    }

    /// Whether `proof` holds for `actual_rating`, given the commitment
    /// recomputed from that rating and the revealed nonce.
    pub fn check_threshold_proof(proof: &ReputationThresholdProof, actual_rating: u32, recomputed: &Hash32) -> (ok: bool)
        ensures
            ok == (actual_rating >= proof.threshold && recomputed@ == proof.commitment@
                && proof.proof_type == ProofKind::RatingThreshold),
    {
        actual_rating >= proof.threshold && crate::types::hash_eq(recomputed, &proof.commitment)
            && proof.proof_type == ProofKind::RatingThreshold
    }

    /// Screening of review inputs for the assessment model: every input is
    /// accepted.
    pub fn validate_ml_input(review_data: &Vec<u8>) -> (ok: bool)
        ensures
            ok,
    {
        true
    }
}


/// Adding a valid rating to a consistent tally keeps it consistent.
pub proof fn law_add_rating_keeps_consistency(t: RatingTally, rating: u32)
    requires
        tally_consistent(t),
        valid_rating(rating),
        can_add(t, rating),
    ensures
        tally_consistent(add_rating(t, rating)),
{
}

/// The average of a consistent, non-empty tally lies between 1.00 and 5.00.
pub proof fn law_consistent_average_in_range(t: RatingTally)
    requires
        tally_consistent(t),
        t.count > 0,
    ensures
        100 <= average_x100(t) <= 500,
{
    let s: int = t.sum as int;
    let c: int = t.count as int;
    assert(c * 100 <= s * 100 <= c * 500);
    vstd::arithmetic::div_mod::lemma_div_is_ordered(c * 100, s * 100, c);
    vstd::arithmetic::div_mod::lemma_div_is_ordered(s * 100, c * 500, c);
    vstd::arithmetic::div_mod::lemma_div_by_multiple(100, c);
    vstd::arithmetic::div_mod::lemma_div_by_multiple(500, c);
    assert(c * 100 == 100 * c) by (nonlinear_arith);
    assert(c * 500 == 500 * c) by (nonlinear_arith);
}

/// A consistent tally whose sum can be scaled by 100 never overflows the
/// penalised-average computation.
pub proof fn law_consistent_tally_fits(t: RatingTally, s: SlashStatus)
    requires
        tally_consistent(t),
        t.sum * 100 <= u64::MAX,
    ensures
        mentor_rating_fits(t, s),
{
    if t.count > 0 {
        law_consistent_average_in_range(t);
        let p = effective_penalty_bps(s);
        if p < 10000 {
            let a = average_x100(t);
            assert(a * (10000 - p) <= 500 * 10000) by (nonlinear_arith)
                requires 0 <= a <= 500, 0 < 10000 - p <= 10000;
        }
    }
}

/// The slash penalty never raises a mentor's rating above the raw average.
pub proof fn law_penalty_never_raises_rating(t: RatingTally, s: SlashStatus)
    ensures
        mentor_rating(t, s).0 <= average_x100(t),
{
    if t.count > 0 && effective_penalty_bps(s) < 10000 {
        let a = average_x100(t);
        let q = 10000 - effective_penalty_bps(s);
        assert(a >= 0) by (nonlinear_arith)
            requires a == (t.sum * 100) / (t.count as int), t.count > 0, t.sum >= 0;
        assert(a * q / 10000 <= a) by (nonlinear_arith)
            requires a >= 0, 0 < q <= 10000;
    }
}

/// Rehabilitation never lowers a mentor's rating.
pub proof fn law_rehabilitation_never_lowers_rating(t: RatingTally, penalty_bps: u64)
    ensures
        mentor_rating(t, SlashStatus { penalty_bps, rehabilitated: true }).0
            >= mentor_rating(t, SlashStatus { penalty_bps, rehabilitated: false }).0,
{
    if t.count > 0 {
        let a = average_x100(t);
        assert(a >= 0) by (nonlinear_arith)
            requires a == (t.sum * 100) / (t.count as int), t.count > 0, t.sum >= 0;
        let p1: int = (penalty_bps / 2) as int;
        let p2: int = penalty_bps as int;
        if p2 < 10000 {
            assert(a * (10000 - p1) >= a * (10000 - p2)) by (nonlinear_arith)
                requires a >= 0, p1 <= p2;
            vstd::arithmetic::div_mod::lemma_div_is_ordered(a * (10000 - p2), a * (10000 - p1), 10000);
        } else if p1 < 10000 {
            assert(a * (10000 - p1) >= 0) by (nonlinear_arith)
                requires a >= 0, p1 < 10000;
        }
    }
}

/// Each further slash never lowers the penalty.
pub proof fn law_slash_penalty_monotone(a: u32, b: u32)
    requires
        a <= b,
    ensures
        slash_penalty_bps(a) <= slash_penalty_bps(b),
{
    if a >= 4 {
        assert(a * 1500 <= b * 1500) by (nonlinear_arith)
            requires a <= b;
    }
    if b >= 4 {
        assert(b * 1500 >= 6000) by (nonlinear_arith)
            requires b >= 4;
    }
}

/// Removing a review through a dispute undoes its submission.
pub proof fn law_removal_undoes_review(t: RatingTally, rating: u32)
    requires
        can_add(t, rating),
    ensures
        remove_rating(add_rating(t, rating), rating) == t,
{
}

/// A proof committed to a rating that reaches its threshold verifies with
/// that rating and nonce.
pub proof fn law_generated_proof_verifies(p: ReputationThresholdProof, rating: u32, nonce: Seq<u8>)
    requires
        rating >= p.threshold,
        p.commitment@ == sha256_digest(rating_commit_bytes(rating, nonce)),
        p.proof_type == ProofKind::RatingThreshold,
    ensures
        threshold_proof_valid(p, rating, nonce),
{
}

/// More loyalty points never earn a lower tier, and a higher tier never a
/// smaller discount.
pub proof fn law_loyalty_monotone(a: int, b: int)
    requires
        a <= b,
    ensures
        loyalty_tier(a) <= loyalty_tier(b),
        loyalty_discount(loyalty_tier(a)) <= loyalty_discount(loyalty_tier(b)),
{
}

/// The compounding slash schedule as a mentor's rating sees it: after the
/// k-th slash the penalty is 0, 500, 1 500, 3 000 bps for k = 0..3 and
/// k * 1 500 bps from the fourth on, halved once the mentor is
/// rehabilitated; the reported rating is the raw average reduced by that
/// penalty, or 0 once the penalty reaches 100%.
pub proof fn law_slash_schedule_on_rating(t: RatingTally, slash_count: u32, rehabilitated: bool)
    requires
        t.count > 0,
    ensures ({
        let p: int = if slash_count == 0 { 0 } else if slash_count == 1 { 500 } else if slash_count == 2 { 1500 }
            else if slash_count == 3 { 3000 } else { slash_count * 1500 };
        let applied: int = if rehabilitated { p / 2 } else { p };
        let raw: int = (t.sum * 100) / (t.count as int);
        mentor_rating(t, SlashStatus { penalty_bps: slash_penalty_bps(slash_count), rehabilitated })
            == if applied >= 10000 { (0int, t.count as int) } else { (raw * (10000 - applied) / 10000, t.count as int) }
    }),
{
}

} // verus!
