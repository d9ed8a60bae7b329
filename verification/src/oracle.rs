//! Price oracle: feeder management, price submission behind a circuit
//! breaker, and a robust price (median of fresh readings after outlier
//! rejection) with health reporting.
use vstd::prelude::*;
use vstd::relations::{sorted_by, total_ordering};
use vstd::seq_lib::{lemma_sorted_unique, to_multiset_build, to_multiset_insert};
use crate::types::{AccountId, sat_sub, position_of, without, without_account, lemma_without_absent};

verus! {

/// Minimum number of distinct fresh feeders for a price.
pub const MIN_FEEDERS: u32 = 3;
/// Maximum stored price points per asset.
pub const MAX_POINTS: usize = 10;
/// Readings older than this are stale.
pub const MAX_STALENESS_SECS: u64 = 3600;
/// Default circuit breaker: 50% deviation from the reference TWAP.
pub const DEFAULT_CB_THRESHOLD_BPS: i128 = 5000;
pub const MIN_CB_THRESHOLD_BPS: i128 = 100;
pub const MAX_CB_THRESHOLD_BPS: i128 = 9000;

/// A single price observation submitted by a feeder.
#[derive(Clone, Copy, Debug, PartialEq, Eq, Structural)]
pub struct PricePoint {
    pub price: i128,
    pub timestamp: u64,
    pub feeder: AccountId,
}

/// Snapshot of oracle health exposed to callers.
#[derive(Clone, Copy, Debug, PartialEq, Eq, Structural)]
pub struct OracleHealth {
    /// Distinct feeders with a fresh reading.
    pub active_feeders: u32,
    /// Timestamp of the most recent reading.
    pub last_update: u64,
    /// Whether the most recent reading is older than the staleness limit.
    pub is_stale: bool,
}

/// Why an oracle request is refused (each aborts the transaction).
#[derive(Clone, Copy, Debug, PartialEq, Eq, Structural)]
pub enum Rejection {
    AlreadyInitialized,
    Unauthorized,
    UnauthorizedFeeder,
    PriceNotPositive,
    MevArbitrageDetected,
    ThresholdOutOfRange,
    DeviationExceedsCircuitBreaker,
    NoPrices,
    NotEnoughFeeders,
    NoPricesAfterOutlierRejection,
}

/// The message a `Rejection` aborts the transaction with.
pub open spec fn rejection_message(r: Rejection) -> Seq<char> {
    match r {
        Rejection::AlreadyInitialized => "already initialized"@,
        Rejection::Unauthorized => "unauthorized"@,
        Rejection::UnauthorizedFeeder => "unauthorized feeder"@,
        Rejection::PriceNotPositive => "price must be positive"@,
        Rejection::MevArbitrageDetected => "protocol isolation: MEV arbitrage detected"@,
        Rejection::ThresholdOutOfRange => "threshold_bps must be between 100 and 9000"@,
        Rejection::DeviationExceedsCircuitBreaker => "price deviation exceeds circuit breaker threshold"@,
        Rejection::NoPrices => "no prices"@,
        Rejection::NotEnoughFeeders => "not enough feeders"@,
        Rejection::NoPricesAfterOutlierRejection => "no prices after outlier rejection"@,
    }
}

impl Rejection {
    /// The message the transaction aborts with.
    pub fn message(&self) -> (m: &'static str)
        ensures
            m@ == rejection_message(*self),
    {
        match self {
            Rejection::AlreadyInitialized => "already initialized",
            Rejection::Unauthorized => "unauthorized",
            Rejection::UnauthorizedFeeder => "unauthorized feeder",
            Rejection::PriceNotPositive => "price must be positive",
            Rejection::MevArbitrageDetected => "protocol isolation: MEV arbitrage detected",
            Rejection::ThresholdOutOfRange => "threshold_bps must be between 100 and 9000",
            Rejection::DeviationExceedsCircuitBreaker => "price deviation exceeds circuit breaker threshold",
            Rejection::NoPrices => "no prices",
            Rejection::NotEnoughFeeders => "not enough feeders",
            Rejection::NoPricesAfterOutlierRejection => "no prices after outlier rejection",
        }
    }
}

/// Ascending order on prices.
pub open spec fn ascending() -> spec_fn(i128, i128) -> bool {
    |a: i128, b: i128| a <= b
}

/// The upper median: the element at position `len / 2` once sorted.
pub open spec fn upper_median(values: Seq<i128>) -> i128 {
    values.sort_by(ascending())[values.len() as int / 2]
}

pub proof fn lemma_ascending_total()
    ensures
        total_ordering(ascending()),
{
    let r = ascending();
    assert(forall|x: i128| #[trigger] r(x, x));
    assert(forall|x: i128, y: i128| #[trigger] r(x, y) && #[trigger] r(y, x) ==> x == y);
    assert(forall|x: i128, y: i128, z: i128| #[trigger] r(x, y) && #[trigger] r(y, z) ==> r(x, z));
    assert(forall|x: i128, y: i128| #[trigger] r(x, y) || #[trigger] r(y, x));
}

/// Sort `values` into ascending order.
pub fn sort_ascending(values: &Vec<i128>) -> (sorted: Vec<i128>)
    ensures
        sorted@ == values@.sort_by(ascending()),
{
    let mut out: Vec<i128> = Vec::new();
    let mut i: usize = 0;
    assert(out@ =~= values@.take(0));
    while i < values.len()
        invariant
            0 <= i <= values@.len(),
            sorted_by(out@, ascending()),
            out@.to_multiset() == values@.take(i as int).to_multiset(),
        decreases values@.len() - i,
    {
        let x = values[i];
        let mut p: usize = 0;
        while p < out.len() && out[p] <= x
            invariant
                0 <= p <= out@.len(),
                forall|k: int| 0 <= k < p ==> out@[k] <= x,
            decreases out@.len() - p,
        {
            p = p + 1;
        }
        proof {
            let s = out@;
            assert(p == s.len() || s[p as int] > x);
            // everything from p on is greater than x, by sortedness
            assert forall|k: int| p <= k < s.len() implies s[k] > x by {
                if k > p {
                    assert((ascending())(s[p as int], s[k]));
                }
            }
            to_multiset_insert(s, p as int, x);
            to_multiset_build(values@.take(i as int), x);
            assert(values@.take(i + 1) =~= values@.take(i as int).push(x));
        }
        let ghost before = out@;
        out.insert(p, x);
        proof {
            let s2 = out@;
            assert(s2 =~= before.insert(p as int, x));
            assert forall|a: int, b: int| 0 <= a < b < s2.len() implies #[trigger] (ascending())(s2[a], s2[b]) by {
                if b < p {
                    assert((ascending())(before[a], before[b]));
                } else if b == p {
                    assert(before[a] <= x);
                } else if a < p {
                    assert(before[a] <= x);
                    assert(before[b - 1] > x);
                } else if a == p {
                    assert(before[b - 1] > x);
                } else {
                    assert((ascending())(before[a - 1], before[b - 1]));
                }
            }
        }
        i = i + 1;
    }
    proof {
        assert(values@.take(values@.len() as int) =~= values@);
        lemma_ascending_total();
        values@.lemma_sort_by_ensures(ascending());
        lemma_sorted_unique(out@, values@.sort_by(ascending()), ascending());
    }
    out
}

/// The upper median of `values` (which must not be empty).
pub fn median(values: &Vec<i128>) -> (m: i128)
    requires
        values@.len() > 0,
    ensures
        m == upper_median(values@),
{
    let sorted = sort_ascending(values);
    proof {
        lemma_ascending_total();
        values@.lemma_sort_by_ensures(ascending());
        vstd::seq_lib::to_multiset_len(values@);
        vstd::seq_lib::to_multiset_len(values@.sort_by(ascending()));
    }
    sorted[values.len() / 2]
}

/// `median` is one of the values.
pub proof fn lemma_median_is_member(values: Seq<i128>)
    requires
        values.len() > 0,
    ensures
        values.contains(upper_median(values)),
{
    lemma_ascending_total();
    values.lemma_sort_by_ensures(ascending());
    let sorted = values.sort_by(ascending());
    vstd::seq_lib::to_multiset_len(values);
    vstd::seq_lib::to_multiset_len(sorted);
    let m = sorted[values.len() as int / 2];
    assert(sorted.contains(m));
    vstd::seq_lib::to_multiset_contains(sorted, m);
    vstd::seq_lib::to_multiset_contains(values, m);
}

/// Whether a reading taken at `timestamp` is fresh at `now`.
pub open spec fn is_fresh(timestamp: u64, now: u64) -> bool {
    sat_sub(now, timestamp) <= MAX_STALENESS_SECS
}

/// The fresh readings, in stored order.
pub open spec fn fresh_points(points: Seq<PricePoint>, now: u64) -> Seq<PricePoint>
    decreases points.len(),
{
    if points.len() == 0 {
        Seq::empty()
    } else {
        let prev = fresh_points(points.drop_last(), now);
        if is_fresh(points.last().timestamp, now) { prev.push(points.last()) } else { prev }
    }
}

/// The most recent timestamp among `points` (0 when there are none).
pub open spec fn latest_timestamp(points: Seq<PricePoint>) -> u64
    decreases points.len(),
{
    if points.len() == 0 {
        0
    } else {
        let prev = latest_timestamp(points.drop_last());
        if points.last().timestamp > prev { points.last().timestamp } else { prev }
    }
}

/// The feeders that submitted `points`.
pub open spec fn feeders_of(points: Seq<PricePoint>) -> Set<AccountId> {
    points.map_values(|p: PricePoint| p.feeder).to_set()
}

/// The prices of `points`, in order.
pub open spec fn prices_of(points: Seq<PricePoint>) -> Seq<i128> {
    points.map_values(|p: PricePoint| p.price)
}

/// The fresh readings among `points` and the latest timestamp among them.
fn collect_fresh(points: &Vec<PricePoint>, now: u64) -> (r: (Vec<PricePoint>, u64))
    ensures
        r.0@ == fresh_points(points@, now),
        r.1 == latest_timestamp(fresh_points(points@, now)),
{
    let mut fresh: Vec<PricePoint> = Vec::new();
    let mut last: u64 = 0;
    let mut i: usize = 0;
    assert(fresh@ =~= fresh_points(points@.take(0), now));
    while i < points.len()
        invariant
            0 <= i <= points@.len(),
            fresh@ == fresh_points(points@.take(i as int), now),
            last == latest_timestamp(fresh@),
        decreases points@.len() - i,
    {
        let p = points[i];
        proof {
            assert(points@.take(i + 1).drop_last() =~= points@.take(i as int));
        }
        if now.saturating_sub(p.timestamp) <= MAX_STALENESS_SECS {
            let ghost before = fresh@;
            fresh.push(p);
            proof {
                assert(fresh@.drop_last() =~= before);
            }
            if p.timestamp > last {
                last = p.timestamp;
            }
        }
        i = i + 1;
    }
    assert(points@.take(points@.len() as int) =~= points@);
    (fresh, last)
}

/// The latest timestamp among `points`.
fn latest_of(points: &Vec<PricePoint>) -> (t: u64)
    ensures
        t == latest_timestamp(points@),
{
    let mut last: u64 = 0;
    let mut i: usize = 0;
    while i < points.len()
        invariant
            0 <= i <= points@.len(),
            last == latest_timestamp(points@.take(i as int)),
        decreases points@.len() - i,
    {
        proof {
            assert(points@.take(i + 1).drop_last() =~= points@.take(i as int));
        }
        if points[i].timestamp > last {
            last = points[i].timestamp;
        }
        i = i + 1;
    }
    assert(points@.take(points@.len() as int) =~= points@);
    last
}

/// The number of distinct feeders among `points`.
pub fn count_distinct_feeders(points: &Vec<PricePoint>) -> (n: u32)
    requires
        points@.len() <= u32::MAX,
    ensures
        n == feeders_of(points@).len(),
{
    let mut seen: Vec<AccountId> = Vec::new();
    let mut i: usize = 0;
    assert(seen@.to_set() =~= feeders_of(points@.take(0)));
    while i < points.len()
        invariant
            0 <= i <= points@.len(),
            seen@.len() <= i,
            seen@.no_duplicates(),
            seen@.to_set() == feeders_of(points@.take(i as int)),
        decreases points@.len() - i,
    {
        let f = points[i].feeder;
        let ghost before = seen@;
        if position_of(&seen, f).is_none() {
            seen.push(f);
        }
        proof {
            let t = points@.take(i + 1);
            let m0 = points@.take(i as int).map_values(|p: PricePoint| p.feeder);
            let mt = t.map_values(|p: PricePoint| p.feeder);
            assert(mt =~= m0.push(f));
            assert(feeders_of(t) == mt.to_set());
            assert(feeders_of(points@.take(i as int)) == m0.to_set());
            assert forall|a: AccountId| seen@.to_set().contains(a) <==> mt.to_set().contains(a) by {
                if a == f {
                    assert(mt[i as int] == f);
                    if !before.contains(f) {
                        assert(seen@[seen@.len() - 1] == f);
                    }
                } else {
                    if seen@.contains(a) {
                        let k = choose|k: int| 0 <= k < seen@.len() && seen@[k] == a;
                        assert(before[k] == a);
                        assert(before.contains(a));
                        assert(m0.to_set().contains(a));
                        let j = choose|j: int| 0 <= j < m0.len() && m0[j] == a;
                        assert(mt[j] == a);
                    }
                    if mt.to_set().contains(a) {
                        let j = choose|j: int| 0 <= j < mt.len() && mt[j] == a;
                        assert(j < i);
                        assert(m0[j] == a);
                        assert(m0.to_set().contains(a));
                        let k = choose|k: int| 0 <= k < before.len() && before[k] == a;
                        assert(seen@[k] == a);
                    }
                }
            }
            assert(seen@.to_set() =~= mt.to_set());
        }
        i = i + 1;
    }
    proof {
        assert(points@.take(points@.len() as int) =~= points@);
        seen@.unique_seq_to_set();
    }
    seen.len() as u32
}

/// `x` clamped into the `i128` range.
pub open spec fn clamp_i128(x: int) -> int {
    if x > i128::MAX { i128::MAX as int } else if x < i128::MIN { i128::MIN as int } else { x }
}

/// Distance of `price` from `med`, saturating at the `i128` bounds.
pub open spec fn distance(price: i128, med: i128) -> int {
    if price >= med { clamp_i128(price - med) } else { clamp_i128(med - price) }
}

/// Readings within one median of the median (within `[0, 2 * med]`).
pub open spec fn inliers(prices: Seq<i128>, med: i128) -> Seq<i128>
    decreases prices.len(),
{
    if prices.len() == 0 {
        Seq::empty()
    } else {
        let prev = inliers(prices.drop_last(), med);
        if distance(prices.last(), med) <= med { prev.push(prices.last()) } else { prev }
    }
}

fn select_inliers(prices: &Vec<i128>, med: i128) -> (r: Vec<i128>)
    ensures
        r@ == inliers(prices@, med),
{
    let mut out: Vec<i128> = Vec::new();
    let mut i: usize = 0;
    assert(out@ =~= inliers(prices@.take(0), med));
    while i < prices.len()
        invariant
            0 <= i <= prices@.len(),
            out@ == inliers(prices@.take(i as int), med),
        decreases prices@.len() - i,
    {
        let price = prices[i];
        proof {
            assert(prices@.take(i + 1).drop_last() =~= prices@.take(i as int));
        }
        let diff: i128 = if price >= med {
            match price.checked_sub(med) {
                Some(d) => d,
                None => i128::MAX,
            }
        } else {
            match med.checked_sub(price) {
                Some(d) => d,
                None => i128::MAX,
            }
        };
        if diff <= med {
            out.push(price);
        }
        i = i + 1;
    }
    assert(prices@.take(prices@.len() as int) =~= prices@);
    out
}

/// The robust price of an asset at `now`, as `(price, last update)`.
///
/// Readings older than an hour are discarded; at least three distinct
/// feeders must remain.  The price is the upper median of the fresh
/// readings that lie within one median of the median of all fresh readings.
pub open spec fn price_at(points: Seq<PricePoint>, now: u64) -> Result<(i128, u64), Rejection> {
    let fresh = fresh_points(points, now);
    let prices = prices_of(fresh);
    if points.len() == 0 {
        Err(Rejection::NoPrices)
    } else if feeders_of(fresh).len() < MIN_FEEDERS {
        Err(Rejection::NotEnoughFeeders)
    } else {
        let kept = inliers(prices, upper_median(prices));
        if kept.len() == 0 {
            Err(Rejection::NoPricesAfterOutlierRejection)
        } else {
            Ok((upper_median(kept), latest_timestamp(fresh)))
        }
    }
}

proof fn lemma_fresh_len(points: Seq<PricePoint>, now: u64)
    ensures
        fresh_points(points, now).len() <= points.len(),
    decreases points.len(),
{
    if points.len() > 0 {
        lemma_fresh_len(points.drop_last(), now);
    }
}

/// Deviation of `price` from a positive reference price, in basis points;
/// a scaled difference that overflows `i128` counts as `i128::MAX` before
/// the division.
pub open spec fn deviation_bps(price: i128, reference: i128) -> int {
    let diff = if price > reference { price - reference } else { reference - price };
    let scaled = if diff * 10000 > i128::MAX { i128::MAX as int } else { diff * 10000 };
    scaled / (reference as int)
}

/// Whether a submission of `price` trips the circuit breaker.
pub open spec fn trips_breaker(price: i128, reference: Option<i128>, threshold_bps: i128) -> bool {
    match reference {
        Some(t) => t > 0 && deviation_bps(price, t) > threshold_bps,
        None => false,
    }
}

/// The last `n` elements of `s` (all of `s` when it is shorter).
pub open spec fn keep_last(s: Seq<PricePoint>, n: int) -> Seq<PricePoint> {
    if s.len() > n { s.subrange(s.len() - n, s.len() as int) } else { s }
}

/// The price oracle contract's entry points.
pub struct OracleContract;

impl OracleContract {
    /// The oracle is set up once.
    pub fn initialize(already_initialized: bool) -> (r: Result<(), Rejection>)
        ensures
            already_initialized <==> r == Err::<(), Rejection>(Rejection::AlreadyInitialized),
            !already_initialized <==> r is Ok,
    {
        if already_initialized { Err(Rejection::AlreadyInitialized) } else { Ok(()) }
    }

    /// The admin, or an account holding the role in the RBAC contract
    /// (`has_role` is false when no RBAC contract is configured).
    pub fn require_admin_or_role(admin: AccountId, caller: AccountId, has_role: bool) -> (r: Result<(), Rejection>)
        ensures
            r is Ok <==> (caller == admin || has_role),
            r is Err ==> r == Err::<(), Rejection>(Rejection::Unauthorized),
    {
        if caller == admin || has_role { Ok(()) } else { Err(Rejection::Unauthorized) }
    }

    /// The robust price of an asset and the time of its freshest reading.
    pub fn get_price(points: &Vec<PricePoint>, now: u64) -> (r: Result<(i128, u64), Rejection>)
        requires
            points@.len() <= u32::MAX,
        ensures
            r == price_at(points@, now),
    {
        if points.len() == 0 {
            return Err(Rejection::NoPrices);
        }
        let (fresh, last_updated) = collect_fresh(points, now);
        proof {
            lemma_fresh_len(points@, now);
        }
        let active = count_distinct_feeders(&fresh);
        if active < MIN_FEEDERS {
            return Err(Rejection::NotEnoughFeeders);
        }
        proof {
            if fresh@.len() == 0 {
                assert(feeders_of(fresh@) =~= Set::<AccountId>::empty());
            }
        }
        let mut prices: Vec<i128> = Vec::new();
        let mut i: usize = 0;
        while i < fresh.len()
            invariant
                0 <= i <= fresh@.len(),
                prices@ == prices_of(fresh@.take(i as int)),
            decreases fresh@.len() - i,
        {
            prices.push(fresh[i].price);
            proof {
                assert(prices_of(fresh@.take(i + 1)) =~= prices_of(fresh@.take(i as int)).push(fresh@[i as int].price));
            }
            i = i + 1;
        }
        assert(fresh@.take(fresh@.len() as int) =~= fresh@);
        let med = median(&prices);
        let kept = select_inliers(&prices, med);
        if kept.len() == 0 {
            return Err(Rejection::NoPricesAfterOutlierRejection);
        }
        let twap = median(&kept);
        Ok((twap, last_updated))
    }

    /// Whether the most recent reading of an asset is older than an hour.
    pub fn is_price_stale(points: &Vec<PricePoint>, now: u64) -> (stale: bool)
        ensures
            stale == (sat_sub(now, latest_timestamp(points@)) > MAX_STALENESS_SECS),
    {
        let last = latest_of(points);
        now.saturating_sub(last) > MAX_STALENESS_SECS
    }

    /// Health of an asset's feed; never refuses.
    pub fn get_oracle_health(points: &Vec<PricePoint>, now: u64) -> (h: OracleHealth)
        requires
            points@.len() <= u32::MAX,
        ensures
            h.active_feeders == feeders_of(fresh_points(points@, now)).len(),
            h.last_update == latest_timestamp(points@),
            h.is_stale == (sat_sub(now, latest_timestamp(points@)) > MAX_STALENESS_SECS),
    {
        let last_update = latest_of(points);
        let (fresh, _) = collect_fresh(points, now);
        proof {
            lemma_fresh_len(points@, now);
        }
        let active_feeders = count_distinct_feeders(&fresh);
        OracleHealth { active_feeders, last_update, is_stale: now.saturating_sub(last_update) > MAX_STALENESS_SECS }
    }

    /// Record a price submitted by `feeder`.
    ///
    /// The feeder must be authorised and the price positive; a feeder that
    /// the MEV protection flags (`isolation_ok` false: the protocol-isolation
    /// verdict on the feeder's interactions in this ledger) is refused; a
    /// price deviating from the reference TWAP by more than the
    /// circuit-breaker threshold is refused.  Only the ten most recent
    /// readings are kept.
    pub fn submit_price(
        points: &mut Vec<PricePoint>,
        feeder_authorized: bool,
        feeder: AccountId,
        price: i128,
        isolation_ok: bool,
        timestamp: u64,
        reference_twap: Option<i128>,
        threshold_bps: i128,
    ) -> (r: Result<(), Rejection>)
        ensures
            !feeder_authorized ==> r == Err::<(), Rejection>(Rejection::UnauthorizedFeeder),
            feeder_authorized && price <= 0 ==> r == Err::<(), Rejection>(Rejection::PriceNotPositive),
            feeder_authorized && price > 0 && !isolation_ok ==> r == Err::<(), Rejection>(Rejection::MevArbitrageDetected),
            feeder_authorized && price > 0 && isolation_ok && trips_breaker(price, reference_twap, threshold_bps)
                ==> r == Err::<(), Rejection>(Rejection::DeviationExceedsCircuitBreaker),
            r is Err ==> final(points)@ == old(points)@,
            feeder_authorized && price > 0 && isolation_ok && !trips_breaker(price, reference_twap, threshold_bps) ==> r is Ok
                && final(points)@ == keep_last(old(points)@.push(PricePoint { price, timestamp, feeder }), MAX_POINTS as int),
    {
        if !feeder_authorized {
            return Err(Rejection::UnauthorizedFeeder);
        }
        if price <= 0 {
            return Err(Rejection::PriceNotPositive);
        }
        if !isolation_ok {
            return Err(Rejection::MevArbitrageDetected);
        }
        if let Some(t) = reference_twap {
            if t > 0 {
                let diff = if price > t { price - t } else { t - price };
                let deviation = match diff.checked_mul(10000) {
                    Some(v) => v / t,
                    None => i128::MAX / t,
                };
                if deviation > threshold_bps {
                    return Err(Rejection::DeviationExceedsCircuitBreaker);
                }
            }
        }
        let ghost full = old(points)@.push(PricePoint { price, timestamp, feeder });
        points.push(PricePoint { price, timestamp, feeder });
        let ghost mut dropped: int = 0;
        while points.len() > MAX_POINTS
            invariant
                0 <= dropped <= full.len(),
                points@ == full.subrange(dropped, full.len() as int),
                dropped > 0 ==> full.len() - dropped >= MAX_POINTS,
            decreases points@.len(),
        {
            points.remove(0);
            proof {
                dropped = dropped + 1;
            }
        }
        proof {
            if full.len() > MAX_POINTS {
                assert(dropped == full.len() - MAX_POINTS);
            } else {
                assert(dropped == 0);
                assert(points@ =~= full);
            }
        }
        Ok(())
    }

    /// Add `feeder` to the feeder list (no duplicates).
    pub fn add_feeder(feeders: &mut Vec<AccountId>, feeder: AccountId)
        ensures
            old(feeders)@.contains(feeder) ==> final(feeders)@ == old(feeders)@,
            !old(feeders)@.contains(feeder) ==> final(feeders)@ == old(feeders)@.push(feeder),
    {
        if position_of(feeders, feeder).is_none() {
            feeders.push(feeder);
        }
    }

    /// Remove every occurrence of `feeder` from the feeder list.
    pub fn remove_feeder(feeders: &Vec<AccountId>, feeder: AccountId) -> (next: Vec<AccountId>)
        ensures
            next@ == without(feeders@, feeder),
    {
        without_account(feeders, feeder)
    }

    /// A circuit-breaker threshold must lie in 1%..=90%.
    pub fn set_circuit_breaker_threshold(threshold_bps: i128) -> (r: Result<i128, Rejection>)
        ensures
            MIN_CB_THRESHOLD_BPS <= threshold_bps <= MAX_CB_THRESHOLD_BPS ==> r == Ok::<i128, Rejection>(threshold_bps),
            !(MIN_CB_THRESHOLD_BPS <= threshold_bps <= MAX_CB_THRESHOLD_BPS) ==> r == Err::<i128, Rejection>(Rejection::ThresholdOutOfRange),
    {
        if threshold_bps < MIN_CB_THRESHOLD_BPS || threshold_bps > MAX_CB_THRESHOLD_BPS {
            Err(Rejection::ThresholdOutOfRange)
        } else {
            Ok(threshold_bps)
        }
    }
}

proof fn lemma_inliers_within(prices: Seq<i128>, med: i128)
    ensures
        forall|k: int| 0 <= k < inliers(prices, med).len() ==> {
            &&& prices.contains(#[trigger] inliers(prices, med)[k])
            &&& distance(inliers(prices, med)[k], med) <= med
        },
    decreases prices.len(),
{
    if prices.len() > 0 {
        let prev = prices.drop_last();
        lemma_inliers_within(prev, med);
        assert forall|k: int| 0 <= k < inliers(prices, med).len() implies {
            &&& prices.contains(#[trigger] inliers(prices, med)[k])
            &&& distance(inliers(prices, med)[k], med) <= med
        } by {
            let x = inliers(prices, med)[k];
            if k < inliers(prev, med).len() {
                assert(x == inliers(prev, med)[k]);
                let j = choose|j: int| 0 <= j < prev.len() && prev[j] == x;
                assert(prices[j] == x);
            } else {
                assert(x == prices.last());
                assert(prices[prices.len() - 1] == x);
            }
        }
    }
}

/// The price the oracle reports is one of the fresh readings and lies
/// within one median of their median, i.e. at most twice the median and
/// (unless the median is `i128::MAX`) not negative: readings outside that
/// band cannot move it.
pub proof fn law_price_is_a_fresh_inlier(points: Seq<PricePoint>, now: u64)
    requires
        price_at(points, now) is Ok,
    ensures ({
        let prices = prices_of(fresh_points(points, now));
        let med = upper_median(prices);
        let p = price_at(points, now)->Ok_0.0;
        &&& prices.contains(p)
        &&& distance(p, med) <= med
        &&& p <= 2 * med
        &&& med < i128::MAX ==> 0 <= p
    }),
{
    let prices = prices_of(fresh_points(points, now));
    let med = upper_median(prices);
    let kept = inliers(prices, med);
    lemma_median_is_member(kept);
    lemma_inliers_within(prices, med);
    let p = upper_median(kept);
    assert(price_at(points, now)->Ok_0.0 == p);
    let k = choose|k: int| 0 <= k < kept.len() && kept[k] == p;
    assert(prices.contains(kept[k]));
    assert(distance(kept[k], med) <= med);
}

/// After a submission at most the ten latest readings are kept, the new
/// one last.
pub proof fn law_submission_keeps_latest(points: Seq<PricePoint>, p: PricePoint)
    ensures
        keep_last(points.push(p), MAX_POINTS as int).len() <= MAX_POINTS,
        keep_last(points.push(p), MAX_POINTS as int).last() == p,
{
}

/// Adding a feeder and removing it again restores the feeder list.
pub proof fn law_add_then_remove_feeder(feeders: Seq<AccountId>, feeder: AccountId)
    requires
        !feeders.contains(feeder),
    ensures
        without(feeders.push(feeder), feeder) == feeders,
{
    assert(feeders.push(feeder).drop_last() =~= feeders);
    lemma_without_absent(feeders, feeder);
}

/// The circuit breaker measures the size of a move, not its direction: a
/// price `d` below the reference deviates exactly as much as a price `d`
/// above it, so a fall trips the breaker exactly when the same rise does.
pub proof fn law_deviation_is_symmetric(reference: i128, d: i128, threshold_bps: i128)
    requires
        0 < reference,
        0 <= d < reference,
        reference + d <= i128::MAX,
    ensures
        deviation_bps((reference - d) as i128, reference) == deviation_bps((reference + d) as i128, reference),
        trips_breaker((reference - d) as i128, Some(reference), threshold_bps)
            == trips_breaker((reference + d) as i128, Some(reference), threshold_bps),
{
}

/// The deviation of a price from a positive reference is its distance
/// from it in basis points of the reference (rounded down), whenever the
/// scaled distance fits in `i128`; the breaker trips exactly when that
/// exceeds the threshold.
pub proof fn law_deviation_is_relative_distance(price: i128, reference: i128, threshold_bps: i128)
    requires
        0 < reference,
        0 < price,
        (if price >= reference { price - reference } else { reference - price }) * 10000 <= i128::MAX,
    ensures ({
        let dist: int = if price >= reference { price - reference } else { reference - price };
        &&& deviation_bps(price, reference) == dist * 10000 / (reference as int)
        &&& trips_breaker(price, Some(reference), threshold_bps) <==> dist * 10000 / (reference as int) > threshold_bps
    }),
{
}

} // verus!
