use mentorsmind::kyc_registry::{AccessDecision, KycBatchEntry, KycLevel, KycRecord, KycRegistry, Rejection};
use mentorsmind::types::AccountId;

const NOW: u64 = 1_000_000;
const DAY: u64 = 86_400;

fn record(level: KycLevel, expiry: u64) -> KycRecord {
    KycRegistry::set_kyc_level(level, expiry, [5u8; 32], NOW).unwrap()
}

#[test]
fn levels_expire_lazily() {
    let r = record(KycLevel::Enhanced, NOW + 10);
    assert_eq!(KycRegistry::get_kyc_level(Some(r), NOW + 10), KycLevel::Enhanced);
    assert_eq!(KycRegistry::get_kyc_level(Some(r), NOW + 11), KycLevel::Unverified);
    assert_eq!(KycRegistry::get_kyc_level(None, NOW), KycLevel::Unverified);
    assert_eq!(KycRegistry::get_kyc_expiry(Some(r)), Some(NOW + 10));
    assert_eq!(KycRegistry::get_kyc_expiry(None), None);
}

#[test]
fn expiry_must_be_in_the_future() {
    assert_eq!(KycRegistry::set_kyc_level(KycLevel::Basic, NOW, [0u8; 32], NOW).unwrap_err(), Rejection::ExpiryNotInFuture);
    assert_eq!(KycRegistry::renew_kyc(None, KycLevel::Basic, NOW - 1, NOW).unwrap_err(), Rejection::ExpiryNotInFuture);
    assert_eq!(Rejection::ExpiryNotInFuture.message(), "KYC expiry must be in the future");
}

#[test]
fn validity_compares_levels() {
    let r = Some(record(KycLevel::Enhanced, NOW + DAY));
    assert!(KycRegistry::is_kyc_valid(r, NOW, KycLevel::Basic));
    assert!(KycRegistry::is_kyc_valid(r, NOW, KycLevel::Enhanced));
    assert!(!KycRegistry::is_kyc_valid(r, NOW, KycLevel::Institutional));
    assert!(!KycRegistry::is_kyc_valid(r, NOW + 2 * DAY, KycLevel::Basic));
    assert!(!KycRegistry::is_kyc_valid(None, NOW, KycLevel::Unverified));
    assert!(KycRegistry::verify_user_identity(r, NOW));
    assert!(!KycRegistry::verify_user_identity(r, NOW + 2 * DAY));
}

#[test]
fn batch_is_all_or_nothing() {
    let entries = vec![
        KycBatchEntry { user: AccountId { id: 1 }, level: KycLevel::Basic, expiry: NOW + 1, provider_hash: [1u8; 32] },
        KycBatchEntry { user: AccountId { id: 2 }, level: KycLevel::Institutional, expiry: NOW + 2, provider_hash: [2u8; 32] },
    ];
    let stored = KycRegistry::batch_set_kyc_level(&entries, NOW).unwrap();
    assert_eq!(stored.len(), 2);
    assert_eq!(stored[1].0, AccountId { id: 2 });
    assert_eq!(stored[1].1.level, KycLevel::Institutional);
    assert_eq!(stored[1].1.kyc_provider_hash, [2u8; 32]);
    let mut bad = entries.clone();
    bad.push(KycBatchEntry { user: AccountId { id: 3 }, level: KycLevel::Basic, expiry: NOW, provider_hash: [3u8; 32] });
    assert_eq!(KycRegistry::batch_set_kyc_level(&bad, NOW).unwrap_err(), Rejection::ExpiryNotInFuture);
}

#[test]
fn renewal_keeps_provider_hash() {
    let r = record(KycLevel::Basic, NOW + 1);
    let renewed = KycRegistry::renew_kyc(Some(r), KycLevel::Enhanced, NOW + DAY, NOW).unwrap();
    assert_eq!(renewed.level, KycLevel::Enhanced);
    assert_eq!(renewed.expiry, NOW + DAY);
    assert_eq!(renewed.kyc_provider_hash, [5u8; 32]);
    let fresh = KycRegistry::renew_kyc(None, KycLevel::Basic, NOW + DAY, NOW).unwrap();
    assert_eq!(fresh.kyc_provider_hash, [0u8; 32]);
}

#[test]
fn expiry_alert_window_is_thirty_days() {
    let r = Some(record(KycLevel::Basic, NOW + 30 * DAY));
    assert!(KycRegistry::check_expiry_alert(r, NOW));
    assert!(!KycRegistry::check_expiry_alert(r, NOW - 1));
    assert!(KycRegistry::check_expiry_alert(r, NOW + 30 * DAY));
    assert!(!KycRegistry::check_expiry_alert(r, NOW + 30 * DAY + 1));
    assert!(!KycRegistry::check_expiry_alert(None, NOW));
}

#[test]
fn fraud_flags_expired_levels() {
    let r = Some(record(KycLevel::Basic, NOW + 5));
    assert!(!KycRegistry::detect_identity_fraud(r, NOW + 5));
    assert!(KycRegistry::detect_identity_fraud(r, NOW + 6));
    let none_level = Some(record(KycLevel::Unverified, NOW + 5));
    assert!(!KycRegistry::detect_identity_fraud(none_level, NOW + 6));
    assert!(!KycRegistry::detect_identity_fraud(None, NOW));
}

#[test]
fn operator_and_admin_checks() {
    let admin = AccountId { id: 1 };
    let op = AccountId { id: 2 };
    assert_eq!(KycRegistry::require_operator(None, op, Some(true)), Err(Rejection::NotInitialized));
    assert_eq!(KycRegistry::require_operator(Some(admin), admin, None), Ok(()));
    assert_eq!(KycRegistry::require_operator(Some(admin), op, None), Err(Rejection::RbacNotConfigured));
    assert_eq!(KycRegistry::require_operator(Some(admin), op, Some(false)), Err(Rejection::OperatorRoleRequired));
    assert_eq!(KycRegistry::require_operator(Some(admin), op, Some(true)), Ok(()));
    assert_eq!(KycRegistry::require_admin(Some(admin), op), Err(Rejection::AdminMismatch));
    assert_eq!(KycRegistry::require_admin(Some(admin), admin), Ok(()));
    assert_eq!(KycRegistry::initialize(true), Err(Rejection::AlreadyInitialized));
}

#[test]
fn access_log_keeps_last_twenty() {
    let log: Vec<u64> = (0..20).collect();
    let next = KycRegistry::record_access(&log, 100);
    assert_eq!(next.len(), 20);
    assert_eq!(next[0], 1);
    assert_eq!(next[19], 100);
    assert_eq!(KycRegistry::record_access(&vec![], 7), vec![7]);
}

#[test]
fn consent_keeps_known_fields_and_saturates_expiry() {
    let subject = AccountId { id: 5 };
    let c = KycRegistry::manage_data_privacy(subject, "tutoring".to_string(), 0b1_0110_0001, 0b1_1111, 3_600, 1_000);
    assert_eq!(c.granted_fields, 0b0_0001);
    assert_eq!((c.granted_at, c.expires_at), (1_000, 4_600));
    assert_eq!(c.purpose, "tutoring");
    let c = KycRegistry::manage_data_privacy(subject, "p".to_string(), 3, 0b1_1111, u64::MAX, 10);
    assert_eq!(c.expires_at, u64::MAX);
    assert!(KycRegistry::handle_consent(subject, "p".to_string(), 3, 0b1_1111, 60, 10, true).is_none());
    let granted = KycRegistry::handle_consent(subject, "p".to_string(), 3, 0b1_1111, 60, 10, false).unwrap();
    assert_eq!((granted.granted_fields, granted.expires_at), (3, 70));
}

#[test]
fn access_is_denied_without_consent_or_under_isolation() {
    let allowed = AccessDecision { allowed: true, allowed_fields: 3, denied_fields: 4 };
    let (d, log) = KycRegistry::enforce_access_controls(Some(allowed), 7, false, &vec![], 50);
    assert_eq!(d, allowed);
    assert_eq!(log, vec![50]);
    let (d, _) = KycRegistry::enforce_access_controls(Some(allowed), 7, true, &vec![], 50);
    assert_eq!(d, AccessDecision { allowed: false, allowed_fields: 3, denied_fields: 4 });
    let (d, _) = KycRegistry::enforce_access_controls(None, 7, false, &vec![], 50);
    assert_eq!(d, AccessDecision { allowed: false, allowed_fields: 0, denied_fields: 7 });
    let full: Vec<u64> = (0..20).collect();
    let (_, log) = KycRegistry::enforce_access_controls(None, 7, false, &full, 99);
    assert_eq!(log.len(), 20);
    assert_eq!((log[0], log[19]), (1, 99));
    assert_eq!(KycRegistry::isolate_access(allowed, true).allowed, false);
    assert_eq!(KycRegistry::isolate_access(allowed, false), allowed);
}
