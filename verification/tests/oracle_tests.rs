use mentorsmind::oracle::{
    median, OracleContract, PricePoint, Rejection, DEFAULT_CB_THRESHOLD_BPS, MAX_STALENESS_SECS,
};
use mentorsmind::types::AccountId;

/// The oracle's state for one asset, driven the way the host drives it.
struct Feed {
    feeders: Vec<AccountId>,
    points: Vec<PricePoint>,
}

fn setup() -> Feed {
    OracleContract::initialize(false).unwrap();
    Feed { feeders: Vec::new(), points: Vec::new() }
}

fn add_feeders(feed: &mut Feed, n: u64) -> Vec<AccountId> {
    let mut out = Vec::new();
    for i in 0..n {
        let f = AccountId { id: 100 + i };
        OracleContract::add_feeder(&mut feed.feeders, f);
        out.push(f);
    }
    out
}

fn submit(feed: &mut Feed, feeder: AccountId, price: i128, ts: u64) {
    let authorized = feed.feeders.contains(&feeder);
    OracleContract::submit_price(&mut feed.points, authorized, feeder, price, true, ts, None, DEFAULT_CB_THRESHOLD_BPS)
        .unwrap_or_else(|r| panic!("{}", r.message()));
}

fn get_price(feed: &Feed, now: u64) -> (i128, u64) {
    OracleContract::get_price(&feed.points, now).unwrap_or_else(|r| panic!("{}", r.message()))
}

#[test]
fn test_get_price_basic_median() {
    let mut feed = setup();
    let f = add_feeders(&mut feed, 3);
    submit(&mut feed, f[0], 100, 999);
    submit(&mut feed, f[1], 110, 999);
    submit(&mut feed, f[2], 105, 999);
    let (price, _) = get_price(&feed, 1_000);
    // sorted: [100, 105, 110]: upper median at index 1 is 105
    assert_eq!(price, 105);
}

#[test]
#[should_panic(expected = "not enough feeders")]
fn test_insufficient_feeders_panics() {
    let mut feed = setup();
    let f = add_feeders(&mut feed, 2);
    submit(&mut feed, f[0], 100, 999);
    submit(&mut feed, f[1], 110, 999);
    get_price(&feed, 1_000);
}

#[test]
#[should_panic(expected = "not enough feeders")]
fn test_stale_readings_excluded() {
    let mut feed = setup();
    let f = add_feeders(&mut feed, 3);
    submit(&mut feed, f[0], 100, 0);
    submit(&mut feed, f[1], 110, 0);
    submit(&mut feed, f[2], 105, 0);
    // every reading is stale an hour and a second later
    get_price(&feed, MAX_STALENESS_SECS + 1);
}

#[test]
fn test_outlier_rejection() {
    let mut feed = setup();
    let f = add_feeders(&mut feed, 4);
    submit(&mut feed, f[0], 100, 999);
    submit(&mut feed, f[1], 102, 999);
    submit(&mut feed, f[2], 98, 999);
    submit(&mut feed, f[3], 500, 999);
    let (price, _) = get_price(&feed, 1_000);
    assert!(price <= 102, "outlier should be rejected, got {}", price);
    assert!(price >= 98);
}

#[test]
fn test_oracle_health_active_feeders() {
    let mut feed = setup();
    let f = add_feeders(&mut feed, 3);
    submit(&mut feed, f[0], 100, 99);
    submit(&mut feed, f[1], 110, 99);
    submit(&mut feed, f[2], 105, 99);
    let health = OracleContract::get_oracle_health(&feed.points, 100);
    assert_eq!(health.active_feeders, 3);
    assert!(!health.is_stale);
}

#[test]
fn test_oracle_health_stale() {
    let mut feed = setup();
    let f = add_feeders(&mut feed, 3);
    submit(&mut feed, f[0], 100, 0);
    let health = OracleContract::get_oracle_health(&feed.points, MAX_STALENESS_SECS + 1);
    assert!(health.is_stale);
    assert_eq!(health.active_feeders, 0);
}

#[test]
fn test_twap_deviation_bounded_with_n_minus_1_manipulated() {
    let mut feed = setup();
    let f = add_feeders(&mut feed, 4);
    let honest_price: i128 = 100;
    submit(&mut feed, f[0], 1_000, 999);
    submit(&mut feed, f[1], 1_000, 999);
    submit(&mut feed, f[2], 1_000, 999);
    submit(&mut feed, f[3], honest_price, 999);
    let (price, _) = get_price(&feed, 1_000);
    assert!(price > 0);
    assert_eq!(price, 1_000);
}

#[test]
fn price_reports_latest_fresh_timestamp() {
    let mut feed = setup();
    let f = add_feeders(&mut feed, 3);
    submit(&mut feed, f[0], 100, 500);
    submit(&mut feed, f[1], 100, 900);
    submit(&mut feed, f[2], 100, 700);
    assert_eq!(get_price(&feed, 1_000), (100, 900));
    assert_eq!(OracleContract::get_price(&Vec::new(), 1_000), Err(Rejection::NoPrices));
}

#[test]
fn one_feeder_submitting_thrice_is_one_feeder() {
    let mut feed = setup();
    let f = add_feeders(&mut feed, 1);
    submit(&mut feed, f[0], 100, 999);
    submit(&mut feed, f[0], 101, 999);
    submit(&mut feed, f[0], 102, 999);
    assert_eq!(OracleContract::get_price(&feed.points, 1_000), Err(Rejection::NotEnoughFeeders));
}

#[test]
fn submissions_are_checked_and_capped_at_ten() {
    let mut feed = setup();
    let f = add_feeders(&mut feed, 1);
    let stranger = AccountId { id: 9 };
    assert_eq!(
        OracleContract::submit_price(&mut feed.points, false, stranger, 100, true, 1, None, 5000),
        Err(Rejection::UnauthorizedFeeder)
    );
    assert_eq!(
        OracleContract::submit_price(&mut feed.points, true, f[0], 0, true, 1, None, 5000),
        Err(Rejection::PriceNotPositive)
    );
    // 100 -> 200 deviates by 10 000 bps from the reference of 100
    assert_eq!(
        OracleContract::submit_price(&mut feed.points, true, f[0], 200, true, 1, Some(100), 5000),
        Err(Rejection::DeviationExceedsCircuitBreaker)
    );
    assert!(OracleContract::submit_price(&mut feed.points, true, f[0], 150, true, 1, Some(100), 5000).is_ok());
    assert!(feed.points.len() == 1);
    for i in 0..12 {
        submit(&mut feed, f[0], 100 + i, i as u64);
    }
    assert_eq!(feed.points.len(), 10);
    assert_eq!(feed.points[9].price, 111);
    assert_eq!(feed.points[0].price, 102);
}

#[test]
fn feeder_list_and_threshold_rules() {
    let mut feeders = Vec::new();
    let a = AccountId { id: 1 };
    let b = AccountId { id: 2 };
    OracleContract::add_feeder(&mut feeders, a);
    OracleContract::add_feeder(&mut feeders, b);
    OracleContract::add_feeder(&mut feeders, a);
    assert_eq!(feeders, vec![a, b]);
    assert_eq!(OracleContract::remove_feeder(&feeders, a), vec![b]);
    assert_eq!(OracleContract::remove_feeder(&feeders, AccountId { id: 3 }), vec![a, b]);
    assert_eq!(OracleContract::set_circuit_breaker_threshold(99), Err(Rejection::ThresholdOutOfRange));
    assert_eq!(OracleContract::set_circuit_breaker_threshold(9001), Err(Rejection::ThresholdOutOfRange));
    assert_eq!(OracleContract::set_circuit_breaker_threshold(100), Ok(100));
    assert_eq!(OracleContract::set_circuit_breaker_threshold(9000), Ok(9000));
}

#[test]
fn upper_median_of_even_and_odd_lists() {
    assert_eq!(median(&vec![5, 1, 3]), 3);
    assert_eq!(median(&vec![4, 1, 3, 2]), 3);
    assert_eq!(median(&vec![7]), 7);
}

#[test]
fn stale_price_detection() {
    let mut feed = setup();
    let f = add_feeders(&mut feed, 1);
    submit(&mut feed, f[0], 100, 1_000);
    assert!(!OracleContract::is_price_stale(&feed.points, 1_000 + MAX_STALENESS_SECS));
    assert!(OracleContract::is_price_stale(&feed.points, 1_001 + MAX_STALENESS_SECS));
}

#[test]
fn overflowing_deviation_is_divided_by_the_reference() {
    let twap: i128 = 100_000_000_000_000_000_000_000_000_000_000_000;
    let price: i128 = 2 * twap;
    let mut points = Vec::new();
    // (price - twap) * 10_000 overflows, so the deviation is i128::MAX / twap = 1 bps.
    assert_eq!(
        OracleContract::submit_price(&mut points, true, AccountId { id: 4 }, price, true, 10, Some(twap), 5_000),
        Ok(())
    );
    assert_eq!(points.len(), 1);
    assert_eq!(
        OracleContract::submit_price(&mut points, true, AccountId { id: 4 }, 2 * 3, true, 11, Some(3), 5_000),
        Err(Rejection::DeviationExceedsCircuitBreaker)
    );
}

#[test]
fn flagged_feeder_is_isolated() {
    let mut points = Vec::new();
    assert_eq!(
        OracleContract::submit_price(&mut points, true, AccountId { id: 4 }, 100, false, 10, None, 5_000),
        Err(Rejection::MevArbitrageDetected)
    );
    assert!(points.is_empty());
    assert_eq!(Rejection::MevArbitrageDetected.message(), "protocol isolation: MEV arbitrage detected");
    assert_eq!(
        OracleContract::submit_price(&mut points, true, AccountId { id: 4 }, 0, false, 10, None, 5_000),
        Err(Rejection::PriceNotPositive)
    );
}
