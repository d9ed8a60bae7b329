//! Scheduling-integrity records: conflict verification, time-slot
//! fairness, manipulation monitoring, cancellation-policy enforcement,
//! scheduling audits and emergency interventions.  Scores are kept on a
//! 0..=100 scale and every counter saturates.
use vstd::prelude::*;
use crate::types::AccountId;

verus! {

/// `x + 1`, saturating at `u32::MAX`.
pub open spec fn sat_inc(x: u32) -> u32 {
    if x == u32::MAX { x } else { (x + 1) as u32 }
}

/// `x - d`, clamped at zero.
pub open spec fn sat_dec(x: u32, d: u32) -> u32 {
    if x >= d { (x - d) as u32 } else { 0 }
}

/// The smaller of `cap` and `x`.
pub open spec fn capped(x: int, cap: u32) -> u32 {
    if x < cap { x as u32 } else { cap }
}

fn inc(x: u32) -> (r: u32)
    ensures
        r == sat_inc(x),
{
    x.saturating_add(1)
}

fn cap(x: u32, limit: u32) -> (r: u32)
    ensures
        r == capped(x as int, limit),
{
    if x < limit { x } else { limit }
}

/// External validation of a claimed scheduling conflict.
#[derive(Debug)]
pub struct ConflictVerification {
    pub record_id: u64,
    pub conflict_id: String,
    pub claimant_address: AccountId,
    /// External validation score (0-100).
    pub external_validation_score: u32,
    /// Risk that the conflict is fake (0-100).
    pub fake_conflict_risk: u32,
    pub verified_sources: u32,
    pub verification_timestamp: u64,
    pub is_conflict_authentic: bool,
    /// Confidence in the conflict's authenticity (0-100).
    pub authenticity_confidence: u32,
}

/// Fairness of the distribution of premium time slots.
#[derive(Debug)]
pub struct TimeSlotFairness {
    pub record_id: u64,
    pub period_id: String,
    /// Distribution score (0-100).
    pub distribution_score: u32,
    /// Gaming risk (0-100).
    pub gaming_risk: u32,
    pub total_slots: u32,
    /// Most slots held by a single entity.
    pub concentration_slots: u32,
    pub gaming_indicators: u32,
    pub assessment_timestamp: u64,
    pub is_distribution_fair: bool,
    /// Concentration slots as a percentage of all slots.
    pub concentration_ratio: u32,
}

/// Monitoring of a schedule for manipulation.
#[derive(Debug)]
pub struct SchedulingIntegrity {
    pub record_id: u64,
    pub schedule_id: String,
    pub manipulation_incidents: u32,
    pub suspicious_conflicts: u32,
    pub suspicious_cancellations: u32,
    /// Manipulation score (0-100).
    pub manipulation_score: u32,
    pub period_start_timestamp: u64,
    pub period_end_timestamp: u64,
    /// Alert severity (0 low .. 3 critical).
    pub alert_severity: u32,
    pub manipulation_identified: bool,
}

/// Enforcement of the cancellation policy for one user.
#[derive(Debug)]
pub struct CancellationPolicyEnforcement {
    pub record_id: u64,
    pub user_address: AccountId,
    pub cancellation_count: u32,
    pub abuse_indicators: u32,
    pub penalties_applied: u32,
    /// Penalty consistency score (0-100).
    pub penalty_consistency: u32,
    /// Abuse risk score (0-100).
    pub abuse_risk_score: u32,
    pub period_start_timestamp: u64,
    pub period_end_timestamp: u64,
    pub enforcement_consistent: bool,
    pub account_flagged: bool,
}

/// An audit of a schedule's conflicts.
#[derive(Debug)]
pub struct SchedulingAudit {
    pub record_id: u64,
    pub schedule_id: String,
    pub conflicts_reviewed: u32,
    pub authentic_conflicts: u32,
    pub fake_conflicts: u32,
    pub gaming_incidents: u32,
    pub initiated_timestamp: u64,
    pub completed_timestamp: u64,
    /// Audit severity (0 low .. 3 critical).
    pub severity_level: u32,
    /// Recommended action (0 none, 1 monitor, 2 restrict, 3 suspend).
    pub recommended_action: u32,
}

/// An emergency rebalancing of a schedule.
#[derive(Debug)]
pub struct EmergencySchedulingIntervention {
    pub record_id: u64,
    pub schedule_id: String,
    /// 0 proposed, 1 active, 2 completed.
    pub status: u32,
    pub slots_to_rebalance: u32,
    pub conflicts_to_resolve: u32,
    pub initiated_timestamp: u64,
    pub completion_timestamp: u64,
    /// Fairness restoration progress (0-100).
    pub restoration_progress: u32,
    pub fairness_restored: bool,
    pub reason: String,
}

impl ConflictVerification {
    /// Scores stay on the 0..=100 scale.
    pub open spec fn wf(&self) -> bool {
        &&& self.external_validation_score <= 100
        &&& self.fake_conflict_risk <= 100
        &&& self.authenticity_confidence <= 100
    }

    /// A fresh verification: neutral scores, no sources yet.
    pub fn new(now: u64, record_id: u64, conflict_id: String, claimant_address: AccountId) -> (v: Self)
        ensures
            v == (ConflictVerification {
                record_id,
                conflict_id,
                claimant_address,
                external_validation_score: 50,
                fake_conflict_risk: 50,
                verified_sources: 0,
                verification_timestamp: now,
                is_conflict_authentic: false,
                authenticity_confidence: 50,
            }),
            v.wf(),
    {
        ConflictVerification {
            record_id,
            conflict_id,
            claimant_address,
            external_validation_score: 50,
            fake_conflict_risk: 50,
            verified_sources: 0,
            verification_timestamp: now,
            is_conflict_authentic: false,
            authenticity_confidence: 50,
        }
    }

    /// One more external source confirmed the conflict: validation rises
    /// by 15 (capped at 100); from the third source on, the fake risk
    /// drops by 20 and the conflict counts as authentic.
    pub fn add_verified_source(&mut self)
        requires
            old(self).external_validation_score + 15 <= u32::MAX,
        ensures
            final(self).verified_sources == sat_inc(old(self).verified_sources),
            final(self).external_validation_score == capped(old(self).external_validation_score + 15, 100),
            sat_inc(old(self).verified_sources) > 2 ==> final(self).fake_conflict_risk == sat_dec(old(self).fake_conflict_risk, 20)
                && final(self).is_conflict_authentic,
            sat_inc(old(self).verified_sources) <= 2 ==> final(self).fake_conflict_risk == old(self).fake_conflict_risk
                && final(self).is_conflict_authentic == old(self).is_conflict_authentic,
            final(self).record_id == old(self).record_id,
            final(self).conflict_id == old(self).conflict_id,
            final(self).claimant_address == old(self).claimant_address,
            final(self).verification_timestamp == old(self).verification_timestamp,
            final(self).authenticity_confidence == old(self).authenticity_confidence,
            old(self).wf() ==> final(self).wf(),
    {
        self.verified_sources = inc(self.verified_sources);
        self.external_validation_score = cap(self.external_validation_score + 15, 100);
        if self.verified_sources > 2 {
            self.fake_conflict_risk = self.fake_conflict_risk.saturating_sub(20);
            self.is_conflict_authentic = true;
        }
    }

    /// A suspicious verification attempt: fake risk up 25 (capped at 100),
    /// validation down 15 (clamped at 0).
    pub fn flag_suspicious(&mut self)
        requires
            old(self).fake_conflict_risk + 25 <= u32::MAX,
        ensures
            final(self).fake_conflict_risk == capped(old(self).fake_conflict_risk + 25, 100),
            final(self).external_validation_score == sat_dec(old(self).external_validation_score, 15),
            final(self).verified_sources == old(self).verified_sources,
            final(self).is_conflict_authentic == old(self).is_conflict_authentic,
            final(self).authenticity_confidence == old(self).authenticity_confidence,
            final(self).record_id == old(self).record_id,
            final(self).conflict_id == old(self).conflict_id,
            final(self).claimant_address == old(self).claimant_address,
            final(self).verification_timestamp == old(self).verification_timestamp,
            old(self).wf() ==> final(self).wf(),
    {
        self.fake_conflict_risk = cap(self.fake_conflict_risk + 25, 100);
        self.external_validation_score = self.external_validation_score.saturating_sub(15);
    }

    /// Confidence follows validation (plus 10, capped at 100) once any
    /// source is verified, and is neutral (50) before.
    pub fn update_authenticity_confidence(&mut self)
        requires
            old(self).verified_sources > 0 ==> old(self).external_validation_score + 10 <= u32::MAX,
        ensures
            final(self).authenticity_confidence == if old(self).verified_sources > 0 {
                capped(old(self).external_validation_score + 10, 100)
            } else {
                50
            },
            final(self).external_validation_score == old(self).external_validation_score,
            final(self).fake_conflict_risk == old(self).fake_conflict_risk,
            final(self).verified_sources == old(self).verified_sources,
            final(self).is_conflict_authentic == old(self).is_conflict_authentic,
            final(self).record_id == old(self).record_id,
            final(self).conflict_id == old(self).conflict_id,
            final(self).claimant_address == old(self).claimant_address,
            final(self).verification_timestamp == old(self).verification_timestamp,
            old(self).wf() ==> final(self).wf(),
    {
        self.authenticity_confidence = if self.verified_sources > 0 {
            cap(self.external_validation_score + 10, 100)
        } else {
            50
        };
    }
}

impl TimeSlotFairness {
    /// Scores stay on the 0..=100 scale.
    pub open spec fn wf(&self) -> bool {
        &&& self.distribution_score <= 100
        &&& self.gaming_risk <= 100
    }

    /// The largest single-entity holding once `entity_slots` is recorded.
    pub open spec fn next_concentration(&self, entity_slots: u32) -> u32 {
        if entity_slots > self.concentration_slots { entity_slots } else { self.concentration_slots }
    }

    /// The concentration ratio once `entity_slots` is recorded.
    pub open spec fn next_ratio(&self, entity_slots: u32) -> int {
        (self.next_concentration(entity_slots) * 100) / (sat_inc(self.total_slots) as int)
    }

    /// A fresh assessment: neutral distribution score, no slots yet.
    pub fn new(now: u64, record_id: u64, period_id: String) -> (f: Self)
        ensures
            f == (TimeSlotFairness {
                record_id,
                period_id,
                distribution_score: 50,
                gaming_risk: 0,
                total_slots: 0,
                concentration_slots: 0,
                gaming_indicators: 0,
                assessment_timestamp: now,
                is_distribution_fair: false,
                concentration_ratio: 0,
            }),
            f.wf(),
    {
        TimeSlotFairness {
            record_id,
            period_id,
            distribution_score: 50,
            gaming_risk: 0,
            total_slots: 0,
            concentration_slots: 0,
            gaming_indicators: 0,
            assessment_timestamp: now,
            is_distribution_fair: false,
            concentration_ratio: 0,
        }
    }

    /// Record one slot allocation to an entity now holding `entity_slots`:
    /// the concentration ratio is recomputed, and above 60% it counts as a
    /// gaming indicator and raises the gaming risk by 20 (capped at 100).
    pub fn record_slot_allocation(&mut self, entity_slots: u32)
        requires
            old(self).next_concentration(entity_slots) * 100 <= u32::MAX,
            old(self).next_ratio(entity_slots) > 60 ==> old(self).gaming_risk + 20 <= u32::MAX,
        ensures
            final(self).total_slots == sat_inc(old(self).total_slots),
            final(self).concentration_slots == old(self).next_concentration(entity_slots),
            final(self).concentration_ratio == old(self).next_ratio(entity_slots),
            old(self).next_ratio(entity_slots) > 60 ==> final(self).gaming_indicators == sat_inc(old(self).gaming_indicators)
                && final(self).gaming_risk == capped(old(self).gaming_risk + 20, 100),
            old(self).next_ratio(entity_slots) <= 60 ==> final(self).gaming_indicators == old(self).gaming_indicators
                && final(self).gaming_risk == old(self).gaming_risk,
            final(self).distribution_score == old(self).distribution_score,
            final(self).is_distribution_fair == old(self).is_distribution_fair,
            final(self).record_id == old(self).record_id,
            final(self).period_id == old(self).period_id,
            final(self).assessment_timestamp == old(self).assessment_timestamp,
            old(self).wf() ==> final(self).wf(),
    {
        self.total_slots = inc(self.total_slots);
        if entity_slots > self.concentration_slots {
            self.concentration_slots = entity_slots;
        }
        if self.total_slots > 0 {
            self.concentration_ratio = (self.concentration_slots * 100) / self.total_slots;
        }
        if self.concentration_ratio > 60 {
            self.gaming_indicators = inc(self.gaming_indicators);
            self.gaming_risk = cap(self.gaming_risk + 20, 100);
        }
    }

    /// Score the distribution by its concentration (below 40%: 100, below
    /// 60%: 70, else 40); it is fair when the score exceeds 70 and the
    /// gaming risk is below 30.
    pub fn update_distribution(&mut self)
        ensures
            final(self).distribution_score == if old(self).concentration_ratio < 40 {
                100u32
            } else if old(self).concentration_ratio < 60 {
                70u32
            } else {
                40u32
            },
            final(self).is_distribution_fair == (final(self).distribution_score > 70 && old(self).gaming_risk < 30),
            final(self).gaming_risk == old(self).gaming_risk,
            final(self).total_slots == old(self).total_slots,
            final(self).concentration_slots == old(self).concentration_slots,
            final(self).concentration_ratio == old(self).concentration_ratio,
            final(self).gaming_indicators == old(self).gaming_indicators,
            final(self).record_id == old(self).record_id,
            final(self).period_id == old(self).period_id,
            final(self).assessment_timestamp == old(self).assessment_timestamp,
            old(self).wf() ==> final(self).wf(),
    {
        self.distribution_score = if self.concentration_ratio < 40 {
            100
        } else if self.concentration_ratio < 60 {
            70
        } else {
            40
        };
        self.is_distribution_fair = self.distribution_score > 70 && self.gaming_risk < 30;
    }
}

impl SchedulingIntegrity {
    /// The score stays on 0..=100 and the severity on 0..=3.
    pub open spec fn wf(&self) -> bool {
        &&& self.manipulation_score <= 100
        &&& self.alert_severity <= 3
    }

    /// A fresh monitoring period starting now.
    pub fn new(now: u64, record_id: u64, schedule_id: String) -> (s: Self)
        ensures
            s == (SchedulingIntegrity {
                record_id,
                schedule_id,
                manipulation_incidents: 0,
                suspicious_conflicts: 0,
                suspicious_cancellations: 0,
                manipulation_score: 0,
                period_start_timestamp: now,
                period_end_timestamp: 0,
                alert_severity: 0,
                manipulation_identified: false,
            }),
            s.wf(),
    {
        SchedulingIntegrity {
            record_id,
            schedule_id,
            manipulation_incidents: 0,
            suspicious_conflicts: 0,
            suspicious_cancellations: 0,
            manipulation_score: 0,
            period_start_timestamp: now,
            period_end_timestamp: 0,
            alert_severity: 0,
            manipulation_identified: false,
        }
    }

    /// One more suspicious conflict claim; from the third on, manipulation
    /// is identified and the severity rises by one (at most 3).
    pub fn record_suspicious_conflict(&mut self)
        requires
            sat_inc(old(self).suspicious_conflicts) > 2 ==> old(self).alert_severity + 1 <= u32::MAX,
        ensures
            final(self).suspicious_conflicts == sat_inc(old(self).suspicious_conflicts),
            sat_inc(old(self).suspicious_conflicts) > 2 ==> final(self).manipulation_identified
                && final(self).alert_severity == capped(old(self).alert_severity + 1, 3),
            sat_inc(old(self).suspicious_conflicts) <= 2 ==> final(self).manipulation_identified == old(self).manipulation_identified
                && final(self).alert_severity == old(self).alert_severity,
            final(self).suspicious_cancellations == old(self).suspicious_cancellations,
            final(self).manipulation_score == old(self).manipulation_score,
            final(self).manipulation_incidents == old(self).manipulation_incidents,
            final(self).record_id == old(self).record_id,
            final(self).schedule_id == old(self).schedule_id,
            final(self).period_start_timestamp == old(self).period_start_timestamp,
            final(self).period_end_timestamp == old(self).period_end_timestamp,
            old(self).wf() ==> final(self).wf(),
    {
        self.suspicious_conflicts = inc(self.suspicious_conflicts);
        if self.suspicious_conflicts > 2 {
            self.manipulation_identified = true;
            self.alert_severity = cap(self.alert_severity + 1, 3);
        }
    }

    /// One more suspicious cancellation; from the fourth on, manipulation
    /// is identified and the severity rises by one (at most 3).
    pub fn record_suspicious_cancellation(&mut self)
        requires
            sat_inc(old(self).suspicious_cancellations) > 3 ==> old(self).alert_severity + 1 <= u32::MAX,
        ensures
            final(self).suspicious_cancellations == sat_inc(old(self).suspicious_cancellations),
            sat_inc(old(self).suspicious_cancellations) > 3 ==> final(self).manipulation_identified
                && final(self).alert_severity == capped(old(self).alert_severity + 1, 3),
            sat_inc(old(self).suspicious_cancellations) <= 3 ==> final(self).manipulation_identified == old(self).manipulation_identified
                && final(self).alert_severity == old(self).alert_severity,
            final(self).suspicious_conflicts == old(self).suspicious_conflicts,
            final(self).manipulation_score == old(self).manipulation_score,
            final(self).manipulation_incidents == old(self).manipulation_incidents,
            final(self).record_id == old(self).record_id,
            final(self).schedule_id == old(self).schedule_id,
            final(self).period_start_timestamp == old(self).period_start_timestamp,
            final(self).period_end_timestamp == old(self).period_end_timestamp,
            old(self).wf() ==> final(self).wf(),
    {
        self.suspicious_cancellations = inc(self.suspicious_cancellations);
        if self.suspicious_cancellations > 3 {
            self.manipulation_identified = true;
            self.alert_severity = cap(self.alert_severity + 1, 3);
        }
    }

    /// The manipulation score: 25 per suspicious conflict or cancellation,
    /// capped at 100.
    pub fn update_manipulation_score(&mut self)
        requires
            (old(self).suspicious_conflicts + old(self).suspicious_cancellations) * 25 <= u32::MAX,
        ensures
            final(self).manipulation_score == capped((old(self).suspicious_conflicts + old(self).suspicious_cancellations) * 25, 100),
            final(self).suspicious_conflicts == old(self).suspicious_conflicts,
            final(self).suspicious_cancellations == old(self).suspicious_cancellations,
            final(self).alert_severity == old(self).alert_severity,
            final(self).manipulation_identified == old(self).manipulation_identified,
            final(self).manipulation_incidents == old(self).manipulation_incidents,
            final(self).record_id == old(self).record_id,
            final(self).schedule_id == old(self).schedule_id,
            final(self).period_start_timestamp == old(self).period_start_timestamp,
            final(self).period_end_timestamp == old(self).period_end_timestamp,
            old(self).wf() ==> final(self).wf(),
    {
        let total_suspicious = self.suspicious_conflicts + self.suspicious_cancellations;
        self.manipulation_score = cap(total_suspicious * 25, 100);
    }
}

impl CancellationPolicyEnforcement {
    /// The abuse risk stays on the 0..=100 scale.
    pub open spec fn wf(&self) -> bool {
        self.abuse_risk_score <= 100
    }

    /// A fresh enforcement period starting now: fully consistent, nothing
    /// recorded.
    pub fn new(now: u64, record_id: u64, user_address: AccountId) -> (c: Self)
        ensures
            c == (CancellationPolicyEnforcement {
                record_id,
                user_address,
                cancellation_count: 0,
                abuse_indicators: 0,
                penalties_applied: 0,
                penalty_consistency: 100,
                abuse_risk_score: 0,
                period_start_timestamp: now,
                period_end_timestamp: 0,
                enforcement_consistent: true,
                account_flagged: false,
            }),
            c.wf(),
    {
        CancellationPolicyEnforcement {
            record_id,
            user_address,
            cancellation_count: 0,
            abuse_indicators: 0,
            penalties_applied: 0,
            penalty_consistency: 100,
            abuse_risk_score: 0,
            period_start_timestamp: now,
            period_end_timestamp: 0,
            enforcement_consistent: true,
            account_flagged: false,
        }
    }

    /// One more cancellation.
    pub fn record_cancellation(&mut self)
        ensures
            *final(self) == (CancellationPolicyEnforcement {
                cancellation_count: sat_inc(old(self).cancellation_count),
                ..*old(self)
            }),
    {
        self.cancellation_count = inc(self.cancellation_count);
    }

    /// One more abuse indicator; from the third on, the abuse risk rises by
    /// 20 (capped at 100) and the account is flagged.
    pub fn record_abuse_indicator(&mut self)
        requires
            sat_inc(old(self).abuse_indicators) > 2 ==> old(self).abuse_risk_score + 20 <= u32::MAX,
        ensures
            final(self).abuse_indicators == sat_inc(old(self).abuse_indicators),
            sat_inc(old(self).abuse_indicators) > 2 ==> final(self).account_flagged
                && final(self).abuse_risk_score == capped(old(self).abuse_risk_score + 20, 100),
            sat_inc(old(self).abuse_indicators) <= 2 ==> final(self).account_flagged == old(self).account_flagged
                && final(self).abuse_risk_score == old(self).abuse_risk_score,
            final(self).cancellation_count == old(self).cancellation_count,
            final(self).penalties_applied == old(self).penalties_applied,
            final(self).penalty_consistency == old(self).penalty_consistency,
            final(self).enforcement_consistent == old(self).enforcement_consistent,
            final(self).record_id == old(self).record_id,
            final(self).user_address == old(self).user_address,
            final(self).period_start_timestamp == old(self).period_start_timestamp,
            final(self).period_end_timestamp == old(self).period_end_timestamp,
            old(self).wf() ==> final(self).wf(),
    {
        self.abuse_indicators = inc(self.abuse_indicators);
        if self.abuse_indicators > 2 {
            self.abuse_risk_score = cap(self.abuse_risk_score + 20, 100);
            self.account_flagged = true;
        }
    }

    /// One more penalty applied.
    pub fn apply_penalty(&mut self)
        ensures
            *final(self) == (CancellationPolicyEnforcement {
                penalties_applied: sat_inc(old(self).penalties_applied),
                ..*old(self)
            }),
    {
        self.penalties_applied = inc(self.penalties_applied);
    }

    /// Set the penalty consistency score; enforcement counts as consistent
    /// above 80.
    pub fn update_penalty_consistency(&mut self, score: u32)
        ensures
            *final(self) == (CancellationPolicyEnforcement {
                penalty_consistency: score,
                enforcement_consistent: score > 80,
                ..*old(self)
            }),
    {
        self.penalty_consistency = score;
        self.enforcement_consistent = score > 80;
    }
}

impl SchedulingAudit {
    /// A fresh audit starting now.
    pub fn new(now: u64, record_id: u64, schedule_id: String) -> (a: Self)
        ensures
            a == (SchedulingAudit {
                record_id,
                schedule_id,
                conflicts_reviewed: 0,
                authentic_conflicts: 0,
                fake_conflicts: 0,
                gaming_incidents: 0,
                initiated_timestamp: now,
                completed_timestamp: 0,
                severity_level: 0,
                recommended_action: 0,
            }),
    {
        SchedulingAudit {
            record_id,
            schedule_id,
            conflicts_reviewed: 0,
            authentic_conflicts: 0,
            fake_conflicts: 0,
            gaming_incidents: 0,
            initiated_timestamp: now,
            completed_timestamp: 0,
            severity_level: 0,
            recommended_action: 0,
        }
    }

    /// One more conflict reviewed, counted as authentic or fake.
    pub fn review_conflict(&mut self, is_authentic: bool)
        ensures
            *final(self) == (SchedulingAudit {
                conflicts_reviewed: sat_inc(old(self).conflicts_reviewed),
                authentic_conflicts: if is_authentic { sat_inc(old(self).authentic_conflicts) } else { old(self).authentic_conflicts },
                fake_conflicts: if is_authentic { old(self).fake_conflicts } else { sat_inc(old(self).fake_conflicts) },
                ..*old(self)
            }),
    {
        self.conflicts_reviewed = inc(self.conflicts_reviewed);
        if is_authentic {
            self.authentic_conflicts = inc(self.authentic_conflicts);
        } else {
            self.fake_conflicts = inc(self.fake_conflicts);
        }
    }

    /// One more gaming incident.
    pub fn record_gaming_incident(&mut self)
        ensures
            *final(self) == (SchedulingAudit {
                gaming_incidents: sat_inc(old(self).gaming_incidents),
                ..*old(self)
            }),
    {
        self.gaming_incidents = inc(self.gaming_incidents);
    }

    /// Close the audit now with a severity and a recommended action.
    pub fn complete_audit(&mut self, now: u64, severity: u32, action: u32)
        ensures
            *final(self) == (SchedulingAudit {
                completed_timestamp: now,
                severity_level: severity,
                recommended_action: action,
                ..*old(self)
            }),
    {
        self.completed_timestamp = now;
        self.severity_level = severity;
        self.recommended_action = action;
    }
}

impl EmergencySchedulingIntervention {
    /// The status is 0, 1 or 2 and the progress stays on 0..=100.
    pub open spec fn wf(&self) -> bool {
        &&& self.status <= 2
        &&& self.restoration_progress <= 100
    }

    /// A proposed intervention, started now.
    pub fn new(now: u64, record_id: u64, schedule_id: String, reason: String) -> (e: Self)
        ensures
            e == (EmergencySchedulingIntervention {
                record_id,
                schedule_id,
                status: 0,
                slots_to_rebalance: 0,
                conflicts_to_resolve: 0,
                initiated_timestamp: now,
                completion_timestamp: 0,
                restoration_progress: 0,
                fairness_restored: false,
                reason,
            }),
            e.wf(),
    {
        EmergencySchedulingIntervention {
            record_id,
            schedule_id,
            status: 0,
            slots_to_rebalance: 0,
            conflicts_to_resolve: 0,
            initiated_timestamp: now,
            completion_timestamp: 0,
            restoration_progress: 0,
            fairness_restored: false,
            reason,
        }
    }

    /// The intervention becomes active.
    pub fn activate_intervention(&mut self)
        ensures
            *final(self) == (EmergencySchedulingIntervention { status: 1, ..*old(self) }),
            old(self).wf() ==> final(self).wf(),
    {
        self.status = 1;
    }

    /// One more slot to rebalance.
    pub fn add_slot_to_rebalance(&mut self)
        ensures
            *final(self) == (EmergencySchedulingIntervention {
                slots_to_rebalance: sat_inc(old(self).slots_to_rebalance),
                ..*old(self)
            }),
    {
        self.slots_to_rebalance = inc(self.slots_to_rebalance);
    }

    /// One more conflict to resolve.
    pub fn add_conflict_to_resolve(&mut self)
        ensures
            *final(self) == (EmergencySchedulingIntervention {
                conflicts_to_resolve: sat_inc(old(self).conflicts_to_resolve),
                ..*old(self)
            }),
    {
        self.conflicts_to_resolve = inc(self.conflicts_to_resolve);
    }

    /// Record progress (capped at 100); full progress restores fairness
    /// and completes the intervention.
    pub fn update_restoration_progress(&mut self, progress: u32)
        ensures
            final(self).restoration_progress == capped(progress as int, 100),
            progress >= 100 ==> final(self).fairness_restored && final(self).status == 2,
            progress < 100 ==> final(self).fairness_restored == old(self).fairness_restored && final(self).status == old(self).status,
            final(self).slots_to_rebalance == old(self).slots_to_rebalance,
            final(self).conflicts_to_resolve == old(self).conflicts_to_resolve,
            final(self).record_id == old(self).record_id,
            final(self).schedule_id == old(self).schedule_id,
            final(self).reason == old(self).reason,
            final(self).initiated_timestamp == old(self).initiated_timestamp,
            final(self).completion_timestamp == old(self).completion_timestamp,
            old(self).wf() ==> final(self).wf(),
    {
        self.restoration_progress = cap(progress, 100);
        if progress >= 100 {
            self.fairness_restored = true;
            self.status = 2;
        }
    }

    /// The intervention completes now.
    pub fn complete_intervention(&mut self, now: u64)
        ensures
            *final(self) == (EmergencySchedulingIntervention { completion_timestamp: now, status: 2, ..*old(self) }),
            old(self).wf() ==> final(self).wf(),
    {
        self.completion_timestamp = now;
        self.status = 2;
    }
}

} // verus!
