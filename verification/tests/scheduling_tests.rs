use mentorsmind::scheduling_integrity::{
    CancellationPolicyEnforcement, ConflictVerification, EmergencySchedulingIntervention, SchedulingAudit,
    SchedulingIntegrity, TimeSlotFairness,
};
use mentorsmind::types::AccountId;

#[test]
fn test_conflict_verification() {
    let mut v = ConflictVerification::new(1_000, 1, "conflict".to_string(), AccountId { id: 7 });
    assert_eq!(v.external_validation_score, 50);
    assert_eq!(v.fake_conflict_risk, 50);
    assert_eq!(v.verification_timestamp, 1_000);
    v.add_verified_source();
    v.add_verified_source();
    assert_eq!(v.verified_sources, 2);
    assert_eq!(v.external_validation_score, 80);
    assert!(!v.is_conflict_authentic);
    v.add_verified_source();
    assert_eq!(v.external_validation_score, 95);
    assert_eq!(v.fake_conflict_risk, 30);
    assert!(v.is_conflict_authentic);
    v.update_authenticity_confidence();
    assert_eq!(v.authenticity_confidence, 100);
    v.flag_suspicious();
    assert_eq!(v.fake_conflict_risk, 55);
    assert_eq!(v.external_validation_score, 80);
}

#[test]
fn test_time_slot_fairness() {
    let mut f = TimeSlotFairness::new(500, 2, "period".to_string());
    assert_eq!(f.distribution_score, 50);
    f.record_slot_allocation(1);
    // one slot held by one entity: 100% concentration
    assert_eq!(f.total_slots, 1);
    assert_eq!(f.concentration_ratio, 100);
    assert_eq!(f.gaming_indicators, 1);
    assert_eq!(f.gaming_risk, 20);
    f.record_slot_allocation(1);
    f.record_slot_allocation(1);
    f.record_slot_allocation(1);
    assert_eq!(f.total_slots, 4);
    assert_eq!(f.concentration_ratio, 25);
    f.update_distribution();
    assert_eq!(f.distribution_score, 100);
    assert!(f.is_distribution_fair);
}

#[test]
fn test_cancellation_enforcement() {
    let mut c = CancellationPolicyEnforcement::new(9, 3, AccountId { id: 1 });
    assert_eq!(c.penalty_consistency, 100);
    assert!(c.enforcement_consistent);
    c.record_cancellation();
    c.apply_penalty();
    assert_eq!(c.cancellation_count, 1);
    assert_eq!(c.penalties_applied, 1);
    c.record_abuse_indicator();
    c.record_abuse_indicator();
    assert!(!c.account_flagged);
    c.record_abuse_indicator();
    assert!(c.account_flagged);
    assert_eq!(c.abuse_risk_score, 20);
    c.update_penalty_consistency(80);
    assert!(!c.enforcement_consistent);
    c.update_penalty_consistency(81);
    assert!(c.enforcement_consistent);
}

#[test]
fn scheduling_integrity_flags_manipulation_after_repeated_suspicion() {
    let mut s = SchedulingIntegrity::new(0, 4, "sched".to_string());
    s.record_suspicious_conflict();
    s.record_suspicious_conflict();
    assert!(!s.manipulation_identified);
    s.record_suspicious_conflict();
    assert!(s.manipulation_identified);
    assert_eq!(s.alert_severity, 1);
    for _ in 0..4 {
        s.record_suspicious_cancellation();
    }
    assert_eq!(s.alert_severity, 2);
    s.update_manipulation_score();
    assert_eq!(s.manipulation_score, 100);
}

#[test]
fn severity_is_capped_at_critical() {
    let mut s = SchedulingIntegrity::new(0, 4, "sched".to_string());
    for _ in 0..10 {
        s.record_suspicious_conflict();
    }
    assert_eq!(s.alert_severity, 3);
}

#[test]
fn scheduling_audit_counts_reviews() {
    let mut a = SchedulingAudit::new(100, 5, "sched".to_string());
    a.review_conflict(true);
    a.review_conflict(false);
    a.review_conflict(false);
    a.record_gaming_incident();
    assert_eq!(a.conflicts_reviewed, 3);
    assert_eq!(a.authentic_conflicts, 1);
    assert_eq!(a.fake_conflicts, 2);
    assert_eq!(a.gaming_incidents, 1);
    a.complete_audit(200, 2, 3);
    assert_eq!(a.completed_timestamp, 200);
    assert_eq!(a.severity_level, 2);
    assert_eq!(a.recommended_action, 3);
}

#[test]
fn intervention_completes_on_full_progress() {
    let mut e = EmergencySchedulingIntervention::new(10, 6, "sched".to_string(), "imbalance".to_string());
    assert_eq!(e.status, 0);
    e.activate_intervention();
    assert_eq!(e.status, 1);
    e.add_slot_to_rebalance();
    e.add_conflict_to_resolve();
    e.update_restoration_progress(60);
    assert_eq!(e.status, 1);
    assert!(!e.fairness_restored);
    e.update_restoration_progress(250);
    assert_eq!(e.restoration_progress, 100);
    assert_eq!(e.status, 2);
    assert!(e.fairness_restored);
    e.complete_intervention(99);
    assert_eq!(e.completion_timestamp, 99);
}
