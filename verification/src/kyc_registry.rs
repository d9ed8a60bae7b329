//! KYC registry: operator-managed verification levels with lazy expiry,
//! batch updates that are all-or-nothing, renewal, pre-expiry alerts and
//! the identity checks built on them.
use vstd::prelude::*;
use crate::types::{AccountId, Hash32, drop_front, copy_from};

verus! {

/// Alerts are raised once expiry is within this window: 30 days.
pub const EXPIRY_ALERT_WINDOW: u64 = 2592000;
/// How many recent access times are kept per (accessor, subject) pair.
pub const ACCESS_LOG_CAP: usize = 20;

/// Verification levels, from unverified to institutional.
#[derive(Clone, Copy, Debug, PartialEq, Eq, Structural)]
pub enum KycLevel {
    Unverified,
    Basic,
    Enhanced,
    Institutional,
}

/// A user's verification as stored.
#[derive(Clone, Copy, Debug)]
pub struct KycRecord {
    pub level: KycLevel,
    pub expiry: u64,
    pub kyc_provider_hash: Hash32,
}

/// One entry of a batch update.
#[derive(Clone, Copy, Debug)]
pub struct KycBatchEntry {
    pub user: AccountId,
    pub level: KycLevel,
    pub expiry: u64,
    pub provider_hash: Hash32,
}

/// Why a registry request is refused (each aborts the transaction).
#[derive(Clone, Copy, Debug, PartialEq, Eq, Structural)]
pub enum Rejection {
    AlreadyInitialized,
    NotInitialized,
    AdminMismatch,
    RbacNotConfigured,
    OperatorRoleRequired,
    ExpiryNotInFuture,
}

/// The message a `Rejection` aborts the transaction with.
pub open spec fn rejection_message(r: Rejection) -> Seq<char> {
    match r {
        Rejection::AlreadyInitialized => "Already initialized"@,
        Rejection::NotInitialized => "Not initialized"@,
        Rejection::AdminMismatch => "Admin address mismatch"@,
        Rejection::RbacNotConfigured => "RBAC not configured"@,
        Rejection::OperatorRoleRequired => "KYC_OPERATOR role required"@,
        Rejection::ExpiryNotInFuture => "KYC expiry must be in the future"@,
    }
}

impl Rejection {
    /// The message the transaction aborts with.
    pub fn message(&self) -> (m: &'static str)
        ensures
            m@ == rejection_message(*self),
    {
        match self {
            Rejection::AlreadyInitialized => "Already initialized",
            Rejection::NotInitialized => "Not initialized",
            Rejection::AdminMismatch => "Admin address mismatch",
            Rejection::RbacNotConfigured => "RBAC not configured",
            Rejection::OperatorRoleRequired => "KYC_OPERATOR role required",
            Rejection::ExpiryNotInFuture => "KYC expiry must be in the future",
        }
    }
}

/// A subject's consent for one purpose: which data-category fields (a
/// bitmask) may be accessed, and until when.
#[derive(Clone, Debug)]
pub struct ConsentRecord {
    pub subject: AccountId,
    pub purpose: String,
    pub granted_fields: u32,
    pub granted_at: u64,
    pub expires_at: u64,
}

/// The verdict on a data-access request.
#[derive(Clone, Copy, Debug, PartialEq, Eq, Structural)]
pub struct AccessDecision {
    pub allowed: bool,
    pub allowed_fields: u32,
    pub denied_fields: u32,
}

/// The rank of a level: Unverified 0, Basic 1, Enhanced 2, Institutional 3.
pub open spec fn level_rank(level: KycLevel) -> u32 {
    match level {
        KycLevel::Unverified => 0,
        KycLevel::Basic => 1,
        KycLevel::Enhanced => 2,
        KycLevel::Institutional => 3,
    }
}

fn rank(level: KycLevel) -> (r: u32)
    ensures
        r == level_rank(level),
{
    match level {
        KycLevel::Unverified => 0,
        KycLevel::Basic => 1,
        KycLevel::Enhanced => 2,
        KycLevel::Institutional => 3,
    }
}

/// The level a user holds at `now`: the stored level until its expiry,
/// `Unverified` after it or without a record.
pub open spec fn level_at(record: Option<KycRecord>, now: u64) -> KycLevel {
    match record {
        Some(r) => if now > r.expiry { KycLevel::Unverified } else { r.level },
        None => KycLevel::Unverified,
    }
}

/// Whether the user holds at least `min_level` at `now` (never for `Unverified`).
pub open spec fn kyc_valid(record: Option<KycRecord>, now: u64, min_level: KycLevel) -> bool {
    let current = level_at(record, now);
    level_rank(current) >= level_rank(min_level) && current != KycLevel::Unverified
}

/// Whether the record expires within the alert window without having
/// expired yet.
pub open spec fn expiry_alert_due(record: Option<KycRecord>, now: u64) -> bool {
    match record {
        Some(r) => now <= r.expiry && r.expiry - now <= EXPIRY_ALERT_WINDOW,
        None => false,
    }
}

/// Whether an expired record still carries a level above `Unverified`.
pub open spec fn fraud_suspected(record: Option<KycRecord>, now: u64) -> bool {
    match record {
        Some(r) => r.expiry < now && r.level != KycLevel::Unverified,
        None => false,
    }
}

/// The KYC registry contract's entry points.
pub struct KycRegistry;

impl KycRegistry {
    /// The registry is set up once, with its admin.
    pub fn initialize(already_initialized: bool) -> (r: Result<(), Rejection>)
        ensures
            already_initialized <==> r == Err::<(), Rejection>(Rejection::AlreadyInitialized),
            !already_initialized <==> r is Ok,
    {
        if already_initialized { Err(Rejection::AlreadyInitialized) } else { Ok(()) }
    }

    /// Only the stored admin passes.
    pub fn require_admin(stored_admin: Option<AccountId>, admin: AccountId) -> (r: Result<(), Rejection>)
        ensures
            stored_admin is None ==> r == Err::<(), Rejection>(Rejection::NotInitialized),
            stored_admin matches Some(a) && a != admin ==> r == Err::<(), Rejection>(Rejection::AdminMismatch),
            stored_admin == Some(admin) ==> r is Ok,
    {
        match stored_admin {
            None => Err(Rejection::NotInitialized),
            Some(a) => if a != admin { Err(Rejection::AdminMismatch) } else { Ok(()) },
        }
    }

    /// The admin passes; anyone else needs the KYC operator role in the
    /// configured RBAC contract (`operator_role` is `None` when no RBAC
    /// contract is configured, else whether the operator holds the role).
    pub fn require_operator(stored_admin: Option<AccountId>, operator: AccountId, operator_role: Option<bool>) -> (r: Result<(), Rejection>)
        ensures
            stored_admin is None ==> r == Err::<(), Rejection>(Rejection::NotInitialized),
            stored_admin == Some(operator) ==> r is Ok,
            stored_admin matches Some(a) && a != operator ==> match operator_role {
                None => r == Err::<(), Rejection>(Rejection::RbacNotConfigured),
                Some(true) => r is Ok,
                Some(false) => r == Err::<(), Rejection>(Rejection::OperatorRoleRequired),
            },
    {
        let admin = match stored_admin {
            None => return Err(Rejection::NotInitialized),
            Some(a) => a,
        };
        if admin == operator {
            return Ok(());
        }
        match operator_role {
            None => Err(Rejection::RbacNotConfigured),
            Some(true) => Ok(()),
            Some(false) => Err(Rejection::OperatorRoleRequired),
        }
    }

    /// The record to store for a user: the expiry must lie after `now`.
    pub fn set_kyc_level(level: KycLevel, expiry: u64, provider_hash: Hash32, now: u64) -> (r: Result<KycRecord, Rejection>)
        ensures
            expiry <= now ==> r == Err::<KycRecord, Rejection>(Rejection::ExpiryNotInFuture),
            expiry > now ==> r is Ok,
            r matches Ok(rec) ==> rec.level == level && rec.expiry == expiry && rec.kyc_provider_hash == provider_hash,
    {
        if expiry <= now {
            return Err(Rejection::ExpiryNotInFuture);
        }
        Ok(KycRecord { level, expiry, kyc_provider_hash: provider_hash })
    }

    /// The records a batch stores, in order; the whole batch is refused if
    /// any expiry is not in the future.
    pub fn batch_set_kyc_level(entries: &Vec<KycBatchEntry>, now: u64) -> (r: Result<Vec<(AccountId, KycRecord)>, Rejection>)
        ensures
            (exists|i: int| 0 <= i < entries@.len() && #[trigger] entries@[i].expiry <= now)
                ==> r == Err::<Vec<(AccountId, KycRecord)>, Rejection>(Rejection::ExpiryNotInFuture),
            (forall|i: int| 0 <= i < entries@.len() ==> #[trigger] entries@[i].expiry > now) ==> r is Ok,
            r matches Ok(records) ==> {
                &&& records@.len() == entries@.len()
                &&& forall|i: int| 0 <= i < entries@.len() ==> {
                    &&& (#[trigger] records@[i]).0 == entries@[i].user
                    &&& records@[i].1.level == entries@[i].level
                    &&& records@[i].1.expiry == entries@[i].expiry
                    &&& records@[i].1.kyc_provider_hash == entries@[i].provider_hash
                }
            },
    {
        let mut i: usize = 0;
        while i < entries.len()
            invariant
                0 <= i <= entries@.len(),
                forall|j: int| 0 <= j < i ==> #[trigger] entries@[j].expiry > now,
            decreases entries@.len() - i,
        {
            if entries[i].expiry <= now {
                return Err(Rejection::ExpiryNotInFuture);
            }
            i = i + 1;
        }
        let mut records: Vec<(AccountId, KycRecord)> = Vec::new();
        let mut k: usize = 0;
        while k < entries.len()
            invariant
                0 <= k <= entries@.len(),
                records@.len() == k,
                forall|j: int| 0 <= j < k ==> {
                    &&& (#[trigger] records@[j]).0 == entries@[j].user
                    &&& records@[j].1.level == entries@[j].level
                    &&& records@[j].1.expiry == entries@[j].expiry
                    &&& records@[j].1.kyc_provider_hash == entries@[j].provider_hash
                },
            decreases entries@.len() - k,
        {
            let e = entries[k];
            records.push((e.user, KycRecord { level: e.level, expiry: e.expiry, kyc_provider_hash: e.provider_hash }));
            k = k + 1;
        }
        Ok(records)
    }

    /// The level a user holds at `now`, re-derived from the stored expiry
    /// on every call.
    pub fn get_kyc_level(record: Option<KycRecord>, now: u64) -> (level: KycLevel)
        ensures
            level == level_at(record, now),
    {
        match record {
            Some(r) => if now > r.expiry { KycLevel::Unverified } else { r.level },
            None => KycLevel::Unverified,
        }
    }

    /// The stored expiry, if any.
    pub fn get_kyc_expiry(record: Option<KycRecord>) -> (expiry: Option<u64>)
        ensures
            match record {
                Some(r) => expiry == Some(r.expiry),
                None => expiry is None,
            },
    {
        match record {
            Some(r) => Some(r.expiry),
            None => None,
        }
    }

    /// Renew a user's level and expiry, keeping the provider hash of the
    /// existing record (all zeros without one); the expiry alert is cleared.
    pub fn renew_kyc(existing: Option<KycRecord>, new_level: KycLevel, new_expiry: u64, now: u64) -> (r: Result<KycRecord, Rejection>)
        ensures
            new_expiry <= now ==> r == Err::<KycRecord, Rejection>(Rejection::ExpiryNotInFuture),
            new_expiry > now ==> r is Ok,
            r matches Ok(rec) ==> {
                &&& rec.level == new_level
                &&& rec.expiry == new_expiry
                &&& match existing {
                    Some(old) => rec.kyc_provider_hash == old.kyc_provider_hash,
                    None => forall|j: int| 0 <= j < 32 ==> rec.kyc_provider_hash@[j] == 0u8,
                }
            },
    {
        if new_expiry <= now {
            return Err(Rejection::ExpiryNotInFuture);
        }
        let provider_hash: Hash32 = match existing {
            Some(old) => old.kyc_provider_hash,
            None => [0u8; 32],
        };
        Ok(KycRecord { level: new_level, expiry: new_expiry, kyc_provider_hash: provider_hash })
    }

    /// Whether the user's verification expires within 30 days and has not
    /// expired yet (the alert flag is then set).
    pub fn check_expiry_alert(record: Option<KycRecord>, now: u64) -> (alert: bool)
        ensures
            alert == expiry_alert_due(record, now),
    {
        match record {
            Some(r) => now <= r.expiry && r.expiry.saturating_sub(now) <= EXPIRY_ALERT_WINDOW,
            None => false,
        }
    }

    /// Whether the user currently holds at least `min_level`.
    pub fn is_kyc_valid(record: Option<KycRecord>, now: u64, min_level: KycLevel) -> (valid: bool)
        ensures
            valid == kyc_valid(record, now, min_level),
    {
        let current = Self::get_kyc_level(record, now);
        rank(current) >= rank(min_level) && current != KycLevel::Unverified
    }

    /// Identity verification: a valid verification of at least Basic.
    pub fn verify_user_identity(record: Option<KycRecord>, now: u64) -> (verified: bool)
        ensures
            verified == (level_rank(level_at(record, now)) >= 1 && kyc_valid(record, now, KycLevel::Basic)),
    {
        let level = Self::get_kyc_level(record, now);
        let valid = Self::is_kyc_valid(record, now, KycLevel::Basic);
        rank(level) >= 1 && valid
    }

    /// The subject grants (or renews) consent for `purpose`: only the fields
    /// within `field_mask` (the set of known data-category fields) are kept,
    /// and the consent runs `duration_secs` from `now` (saturating).  A fresh
    /// grant also lifts any automatic privacy isolation of the subject.
    pub fn manage_data_privacy(
        subject: AccountId,
        purpose: String,
        granted_fields: u32,
        field_mask: u32,
        duration_secs: u64,
        now: u64,
    ) -> (c: ConsentRecord)
        ensures
            c.subject == subject,
            c.purpose@ == purpose@,
            c.granted_fields == granted_fields & field_mask,
            c.granted_at == now,
            c.expires_at == (if now + duration_secs > u64::MAX { u64::MAX as int } else { now + duration_secs }),
    {
        ConsentRecord {
            subject,
            purpose,
            granted_fields: granted_fields & field_mask,
            granted_at: now,
            expires_at: now.saturating_add(duration_secs),
        }
    }

    /// Grant consent as `manage_data_privacy` does, or revoke it (`None`:
    /// the stored consent is removed).
    pub fn handle_consent(
        subject: AccountId,
        purpose: String,
        granted_fields: u32,
        field_mask: u32,
        duration_secs: u64,
        now: u64,
        revoke: bool,
    ) -> (c: Option<ConsentRecord>)
        ensures
            revoke ==> c is None,
            !revoke ==> (c matches Some(rec) && {
                &&& rec.subject == subject
                &&& rec.purpose@ == purpose@
                &&& rec.granted_fields == granted_fields & field_mask
                &&& rec.granted_at == now
                &&& rec.expires_at == (if now + duration_secs > u64::MAX { u64::MAX as int } else { now + duration_secs })
            }),
    {
        if revoke {
            None
        } else {
            Some(Self::manage_data_privacy(subject, purpose, granted_fields, field_mask, duration_secs, now))
        }
    }

    /// Decide a data-access request and log it.
    ///
    /// `consent_check` is the consent component's verdict on the
    /// need-to-know field set `minimized_fields` against the subject's
    /// consent for the purpose (`None` without consent: then nothing is
    /// allowed and every requested field is denied).  An isolated subject's
    /// data is never released.  The access time is appended to the
    /// accessor's log, which keeps the latest `ACCESS_LOG_CAP` entries.
    pub fn enforce_access_controls(
        consent_check: Option<AccessDecision>,
        minimized_fields: u32,
        isolated: bool,
        log: &Vec<u64>,
        now: u64,
    ) -> (r: (AccessDecision, Vec<u64>))
        requires
            log@.len() < usize::MAX,
        ensures
            r.0 == (match consent_check {
                Some(d) => AccessDecision { allowed: d.allowed && !isolated, ..d },
                None => AccessDecision { allowed: false, allowed_fields: 0, denied_fields: minimized_fields },
            }),
            r.1@ == drop_front(log@.push(now), log@.len() + 1 - ACCESS_LOG_CAP),
    {
        let mut access = match consent_check {
            Some(d) => d,
            None => AccessDecision { allowed: false, allowed_fields: 0, denied_fields: minimized_fields },
        };
        if isolated {
            access.allowed = false;
        }
        (access, Self::record_access(log, now))
    }

    /// Apply a privacy intervention: when the subject's data is to be
    /// isolated (exploitative access, or a contained breach), the access is
    /// denied; the field sets are kept as decided.
    pub fn isolate_access(access: AccessDecision, isolate: bool) -> (r: AccessDecision)
        ensures
            r == (AccessDecision { allowed: access.allowed && !isolate, ..access }),
    {
        let mut r = access;
        if isolate {
            r.allowed = false;
        }
        r
    }

    /// The access log after one more access at `now`: the oldest entries
    /// are dropped so that at most `ACCESS_LOG_CAP` remain.
    pub fn record_access(log: &Vec<u64>, now: u64) -> (next: Vec<u64>)
        requires
            log@.len() < usize::MAX,
        ensures
            next@ == drop_front(log@.push(now), log@.len() + 1 - ACCESS_LOG_CAP),
            next@.len() <= ACCESS_LOG_CAP,
            next@.last() == now,
    {
        let mut l = copy_from(log, 0);
        l.push(now);
        let excess: usize = if l.len() > ACCESS_LOG_CAP { l.len() - ACCESS_LOG_CAP } else { 0 };
        copy_from(&l, excess)
    }

    /// Whether an expired verification still shows a level above `Unverified`.
    pub fn detect_identity_fraud(record: Option<KycRecord>, now: u64) -> (suspected: bool)
        ensures
            suspected == fraud_suspected(record, now),
    {
        match record {
            None => false,
            Some(r) => r.expiry < now && rank(r.level) > 0,
        }
    }
}

/// Validity for a level implies validity for every lower level.
pub proof fn law_validity_monotone_in_level(record: Option<KycRecord>, now: u64, low: KycLevel, high: KycLevel)
    requires
        level_rank(low) <= level_rank(high),
        kyc_valid(record, now, high),
    ensures
        kyc_valid(record, now, low),
{
}

/// A freshly stored verification above `Unverified` is valid for its own level
/// until its expiry, and reads as `Unverified` after it.
pub proof fn law_stored_level_holds_until_expiry(rec: KycRecord, t: u64)
    requires
        rec.level != KycLevel::Unverified,
    ensures
        t <= rec.expiry ==> kyc_valid(Some(rec), t, rec.level),
        t > rec.expiry ==> level_at(Some(rec), t) == KycLevel::Unverified,
{
}

/// A verification flagged for fraud already reads as `Unverified`, so it passes
/// no validity check.
pub proof fn law_fraud_flag_implies_no_level(record: Option<KycRecord>, now: u64, min_level: KycLevel)
    requires
        fraud_suspected(record, now),
    ensures
        level_at(record, now) == KycLevel::Unverified,
        !kyc_valid(record, now, min_level),
{
}

/// An expiry alert is raised only while the verification is still in force.
pub proof fn law_alert_only_before_expiry(record: Option<KycRecord>, now: u64)
    requires
        expiry_alert_due(record, now),
    ensures
        level_at(record, now) == record->Some_0.level,
{
}

/// The verification levels are strictly ordered: unverified, basic,
/// enhanced, institutional.
pub proof fn law_levels_strictly_ordered()
    ensures
        level_rank(KycLevel::Unverified) < level_rank(KycLevel::Basic),
        level_rank(KycLevel::Basic) < level_rank(KycLevel::Enhanced),
        level_rank(KycLevel::Enhanced) < level_rank(KycLevel::Institutional),
{
}

/// While a verification is in force, it is valid for exactly the levels at
/// or below its own: a basic verification passes a basic check only, an
/// enhanced one passes basic and enhanced checks, an institutional one
/// passes every check, and an unverified record passes none.
pub proof fn law_validity_by_level(rec: KycRecord, now: u64, min_level: KycLevel)
    requires
        now <= rec.expiry,
    ensures
        kyc_valid(Some(rec), now, min_level) <==> match rec.level {
            KycLevel::Unverified => false,
            KycLevel::Basic => min_level == KycLevel::Unverified || min_level == KycLevel::Basic,
            KycLevel::Enhanced => min_level != KycLevel::Institutional,
            KycLevel::Institutional => true,
        },
{
}

} // verus!
