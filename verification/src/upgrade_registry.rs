//! Registry of contract upgrades: version monotonicity, a timelocked
//! two-step upgrade path, the direct path with the same guards, upgrade
//! notifications, M-of-N signer configuration, and source-commit records.
use vstd::prelude::*;
use crate::types::{AccountId, Hash32, distinct_accounts, is_zero_hash, position_of, first_position, without, without_account, lemma_without_absent};

verus! {

/// Default upgrade timelock: 48 hours.
pub const DEFAULT_UPGRADE_DELAY: u64 = 172800;
/// How long a cached approval validation stays valid.
pub const VALIDATION_CACHE_EXPIRY_SECS: u64 = 300;

#[derive(Clone, Copy, Debug, PartialEq, Eq, Structural)]
pub enum Error {
    AlreadyInitialized,
    NotInitialized,
    NotAdmin,
    ContractNotFound,
    AlreadySubscribed,
    NotSubscribed,
    /// new_version must be strictly greater than the registered version.
    VersionNotMonotonic,
    /// The upgrade delay has not elapsed.
    TimelockNotElapsed,
    /// An upgrade is already pending.
    UpgradePending,
    /// No pending upgrade to execute or cancel.
    NoPendingUpgrade,
    /// Threshold must be non-zero and no greater than the signer count.
    InvalidThreshold,
    /// Approval signer is not registered in the upgrade config.
    NotSigner,
    /// Signer list or approval list holds the same address twice.
    DuplicateSigner,
    /// Approval count is below the configured threshold.
    BelowThreshold,
    MissingRequiredFunction,
    WasmValidationFailed,
    SourceCommitAlreadyRegistered,
    CommitHashMismatch,
}

#[derive(Clone, Copy, Debug)]
pub struct UpgradeRecord {
    pub old_version: u32,
    pub new_version: u32,
    pub changelog_hash: Hash32,
    pub timestamp: u64,
    pub admin: AccountId,
}

/// An upgrade waiting for its timelock.
#[derive(Clone, Copy, Debug)]
pub struct PendingUpgrade {
    pub new_version: u32,
    pub changelog_hash: Hash32,
    /// Earliest timestamp at which the upgrade may execute.
    pub execute_after: u64,
    pub scheduled_by: AccountId,
}

/// The M-of-N signer set for upgrades.
#[derive(Clone, Debug, PartialEq, Eq)]
pub struct UpgradeConfig {
    pub signers: Vec<AccountId>,
    pub threshold: u32,
}

/// The earliest time the direct path allows another upgrade.
pub open spec fn direct_upgrade_earliest(last_upgrade_at: Option<u64>, delay: u64) -> int {
    let last: int = match last_upgrade_at { Some(t) => t as int, None => 0 };
    if last + delay > u64::MAX { u64::MAX as int } else { last + delay }
}

/// When an upgrade scheduled at `now` with `delay` may execute (saturating).
pub open spec fn execute_after_time(now: u64, delay: u64) -> u64 {
    if now + delay > u64::MAX { u64::MAX } else { (now + delay) as u64 }
}

/// The outcome of scheduling an upgrade (the two-step path, first step).
pub open spec fn schedule_result(
    latest_version: u32,
    pending_exists: bool,
    new_version: u32,
    changelog_hash: Hash32,
    now: u64,
    delay: u64,
    admin: AccountId,
) -> Result<PendingUpgrade, Error> {
    if pending_exists {
        Err(Error::UpgradePending)
    } else if new_version <= latest_version {
        Err(Error::VersionNotMonotonic)
    } else {
        Ok(PendingUpgrade { new_version, changelog_hash, execute_after: execute_after_time(now, delay), scheduled_by: admin })
    }
}

/// The outcome of executing the pending upgrade (the two-step path, second step).
pub open spec fn execute_result(pending: Option<PendingUpgrade>, latest_version: u32, now: u64, admin: AccountId) -> Result<UpgradeRecord, Error> {
    match pending {
        None => Err(Error::NoPendingUpgrade),
        Some(p) => if now < p.execute_after {
            Err(Error::TimelockNotElapsed)
        } else {
            Ok(UpgradeRecord { old_version: latest_version, new_version: p.new_version, changelog_hash: p.changelog_hash, timestamp: now, admin })
        },
    }
}

/// The outcome of recording an upgrade directly (deprecated path).
pub open spec fn register_result(latest_version: u32, old_version: u32, new_version: u32, changelog_hash: Hash32, now: u64, admin: AccountId) -> Result<UpgradeRecord, Error> {
    if new_version <= latest_version {
        Err(Error::VersionNotMonotonic)
    } else {
        Ok(UpgradeRecord { old_version, new_version, changelog_hash, timestamp: now, admin })
    }
}

/// The outcome of a direct upgrade (deprecated path).
pub open spec fn direct_result(
    latest_version: u32,
    last_upgrade_at: Option<u64>,
    new_version: u32,
    changelog_hash: Hash32,
    now: u64,
    delay: u64,
    admin: AccountId,
) -> Result<UpgradeRecord, Error> {
    if new_version <= latest_version {
        Err(Error::VersionNotMonotonic)
    } else if delay > 0 && now < direct_upgrade_earliest(last_upgrade_at, delay) {
        Err(Error::TimelockNotElapsed)
    } else {
        Ok(UpgradeRecord { old_version: latest_version, new_version, changelog_hash, timestamp: now, admin })
    }
}

/// A new WASM hash must not be all zeros.
pub fn validate_wasm_exports(wasm_hash: &Hash32) -> (r: Result<(), Error>)
    ensures
        is_zero_hash(wasm_hash@) <==> r == Err::<(), Error>(Error::WasmValidationFailed),
        !is_zero_hash(wasm_hash@) <==> r is Ok,
{
    let mut i: usize = 0;
    while i < 32
        invariant
            0 <= i <= 32,
            wasm_hash@.len() == 32,
            forall|j: int| 0 <= j < i ==> wasm_hash@[j] == 0,
        decreases 32 - i,
    {
        if wasm_hash[i] != 0 {
            return Ok(());
        }
        i = i + 1;
    }
    Err(Error::WasmValidationFailed)
}

/// A signer set is valid with a threshold in `1..=signers` and no signer
/// listed twice.
pub fn validate_upgrade_config(signers: &Vec<AccountId>, threshold: u32) -> (r: Result<(), Error>)
    ensures
        (threshold == 0 || signers@.len() == 0 || threshold > signers@.len())
            ==> r == Err::<(), Error>(Error::InvalidThreshold),
        !(threshold == 0 || signers@.len() == 0 || threshold > signers@.len()) ==> (
            (r is Ok <==> distinct_accounts(signers@))
            && (r is Err ==> r == Err::<(), Error>(Error::DuplicateSigner))),
{
    if threshold == 0 || signers.len() == 0 || threshold as usize > signers.len() {
        return Err(Error::InvalidThreshold);
    }
    check_distinct(signers)
}

fn check_distinct(list: &Vec<AccountId>) -> (r: Result<(), Error>)
    ensures
        r is Ok <==> distinct_accounts(list@),
        r is Err ==> r == Err::<(), Error>(Error::DuplicateSigner),
{
    let mut i: usize = 0;
    while i < list.len()
        invariant
            0 <= i <= list@.len(),
            forall|a: int, b: int| 0 <= a < b < list@.len() && a < i ==> list@[a] != list@[b],
        decreases list@.len() - i,
    {
        let mut j: usize = i + 1;
        while j < list.len()
            invariant
                i < list@.len(),
                i + 1 <= j <= list@.len(),
                forall|a: int, b: int| 0 <= a < b < list@.len() && a < i ==> list@[a] != list@[b],
                forall|b: int| i < b < j ==> list@[i as int] != list@[b],
            decreases list@.len() - j,
        {
            if list[i] == list[j] {
                return Err(Error::DuplicateSigner);
            }
            j = j + 1;
        }
        i = i + 1;
    }
    Ok(())
}

/// Whether every approver is a registered signer.
pub open spec fn all_signers(signers: Seq<AccountId>, approvers: Seq<AccountId>) -> bool {
    forall|i: int| 0 <= i < approvers.len() ==> signers.contains(#[trigger] approvers[i])
}

/// The approvers of an upgrade must reach the threshold, all be registered
/// signers, and be distinct.
pub fn validate_approval_set(config: &UpgradeConfig, approvers: &Vec<AccountId>) -> (r: Result<(), Error>)
    ensures
        approvers@.len() < config.threshold ==> r == Err::<(), Error>(Error::BelowThreshold),
        approvers@.len() >= config.threshold ==> (r is Ok <==> (
            (forall|i: int| 0 <= i < approvers@.len() ==> config.signers@.contains(#[trigger] approvers@[i]))
            && distinct_accounts(approvers@))),
        approvers@.len() >= config.threshold && !all_signers(config.signers@, approvers@)
            ==> r == Err::<(), Error>(Error::NotSigner),
        approvers@.len() >= config.threshold && all_signers(config.signers@, approvers@) && !distinct_accounts(approvers@)
            ==> r == Err::<(), Error>(Error::DuplicateSigner),
{
    if approvers.len() < config.threshold as usize {
        return Err(Error::BelowThreshold);
    }
    let mut i: usize = 0;
    while i < approvers.len()
        invariant
            0 <= i <= approvers@.len(),
            approvers@.len() >= config.threshold,
            forall|k: int| 0 <= k < i ==> config.signers@.contains(#[trigger] approvers@[k]),
        decreases approvers@.len() - i,
    {
        if position_of(&config.signers, approvers[i]).is_none() {
            return Err(Error::NotSigner);
        }
        i = i + 1;
    }
    check_distinct(approvers)
}

/// The approvals an upgrade needs: a configured signer set, and approvers
/// that pass `validate_approval_set` against it (each approver's signature
/// is then required by the host).
pub fn require_upgrade_approvals(config: &Option<UpgradeConfig>, approvers: &Vec<AccountId>) -> (r: Result<(), Error>)
    ensures
        config is None ==> r == Err::<(), Error>(Error::NotInitialized),
        match config {
            Some(c) => {
                &&& approvers@.len() < c.threshold ==> r == Err::<(), Error>(Error::BelowThreshold)
                &&& approvers@.len() >= c.threshold ==> (r is Ok <==> (
                    (forall|i: int| 0 <= i < approvers@.len() ==> c.signers@.contains(#[trigger] approvers@[i]))
                    && distinct_accounts(approvers@)))
                &&& approvers@.len() >= c.threshold && !all_signers(c.signers@, approvers@)
                    ==> r == Err::<(), Error>(Error::NotSigner)
                &&& approvers@.len() >= c.threshold && all_signers(c.signers@, approvers@) && !distinct_accounts(approvers@)
                    ==> r == Err::<(), Error>(Error::DuplicateSigner)
            },
            None => true,
        },
{
    match config {
        None => Err(Error::NotInitialized),
        Some(c) => validate_approval_set(c, approvers),
    }
}

/// Whether a cached approval validation from `cached_at` is still valid.
pub fn validation_cache_fresh(cached_at: Option<u64>, now: u64) -> (fresh: bool)
    ensures
        fresh == match cached_at {
            Some(t) => now < t + VALIDATION_CACHE_EXPIRY_SECS,
            None => false,
        },
{
    match cached_at {
        Some(t) => {
            if t > u64::MAX - VALIDATION_CACHE_EXPIRY_SECS {
                true
            } else {
                now < t + VALIDATION_CACHE_EXPIRY_SECS
            }
        },
        None => false,
    }
}

/// The upgrade registry contract's entry points.
pub struct UpgradeRegistryContract;

impl UpgradeRegistryContract {
    /// A registry is set up once.
    pub fn initialize(already_initialized: bool) -> (r: Result<(), Error>)
        ensures
            already_initialized <==> r == Err::<(), Error>(Error::AlreadyInitialized),
            !already_initialized <==> r is Ok,
    {
        if already_initialized { Err(Error::AlreadyInitialized) } else { Ok(()) }
    }

    /// Schedule an upgrade to `new_version`; it may execute `delay` seconds
    /// after `now` (saturating).
    pub fn schedule_upgrade(
        latest_version: u32,
        pending_exists: bool,
        new_version: u32,
        changelog_hash: Hash32,
        now: u64,
        delay: u64,
        admin: AccountId,
    ) -> (r: Result<PendingUpgrade, Error>)
        ensures
            r == schedule_result(latest_version, pending_exists, new_version, changelog_hash, now, delay, admin),
            pending_exists ==> r == Err::<PendingUpgrade, Error>(Error::UpgradePending),
            !pending_exists && new_version <= latest_version ==> r == Err::<PendingUpgrade, Error>(Error::VersionNotMonotonic),
            !pending_exists && new_version > latest_version ==> r == Ok::<PendingUpgrade, Error>(PendingUpgrade {
                new_version,
                changelog_hash,
                execute_after: if now + delay > u64::MAX { u64::MAX } else { (now + delay) as u64 },
                scheduled_by: admin,
            }),
    {
        if pending_exists {
            return Err(Error::UpgradePending);
        }
        if new_version <= latest_version {
            return Err(Error::VersionNotMonotonic);
        }
        let execute_after = now.saturating_add(delay);
        Ok(PendingUpgrade { new_version, changelog_hash, execute_after, scheduled_by: admin })
    }

    /// Execute the pending upgrade once its timelock has elapsed; returns the
    /// history record (the registry's version becomes `new_version` and the
    /// pending slot is cleared).
    pub fn execute_pending_upgrade(
        pending: Option<PendingUpgrade>,
        latest_version: u32,
        now: u64,
        admin: AccountId,
    ) -> (r: Result<UpgradeRecord, Error>)
        ensures
            r == execute_result(pending, latest_version, now, admin),
            pending is None ==> r == Err::<UpgradeRecord, Error>(Error::NoPendingUpgrade),
            match pending {
                Some(p) => if now < p.execute_after {
                        r == Err::<UpgradeRecord, Error>(Error::TimelockNotElapsed)
                    } else {
                        r == Ok::<UpgradeRecord, Error>(UpgradeRecord {
                            old_version: latest_version,
                            new_version: p.new_version,
                            changelog_hash: p.changelog_hash,
                            timestamp: now,
                            admin,
                        })
                    },
                None => true,
            },
    {
        let p = match pending {
            Some(p) => p,
            None => return Err(Error::NoPendingUpgrade),
        };
        if now < p.execute_after {
            return Err(Error::TimelockNotElapsed);
        }
        Ok(UpgradeRecord {
            old_version: latest_version,
            new_version: p.new_version,
            changelog_hash: p.changelog_hash,
            timestamp: now,
            admin,
        })
    }

    /// Record an upgrade directly (the deprecated path): the version must rise.
    pub fn register_upgrade(
        latest_version: u32,
        old_version: u32,
        new_version: u32,
        changelog_hash: Hash32,
        now: u64,
        admin: AccountId,
    ) -> (r: Result<UpgradeRecord, Error>)
        ensures
            r == register_result(latest_version, old_version, new_version, changelog_hash, now, admin),
            new_version <= latest_version ==> r == Err::<UpgradeRecord, Error>(Error::VersionNotMonotonic),
            new_version > latest_version ==> r == Ok::<UpgradeRecord, Error>(
                UpgradeRecord { old_version, new_version, changelog_hash, timestamp: now, admin }),
    {
        if new_version <= latest_version {
            return Err(Error::VersionNotMonotonic);
        }
        Ok(UpgradeRecord { old_version, new_version, changelog_hash, timestamp: now, admin })
    }

    /// Upgrade directly to `new_version`: the version must rise and, with a
    /// non-zero delay, `delay` seconds must have passed since the last
    /// recorded upgrade (`last_upgrade_at`).
    pub fn upgrade_contract(
        latest_version: u32,
        last_upgrade_at: Option<u64>,
        new_version: u32,
        changelog_hash: Hash32,
        now: u64,
        delay: u64,
        admin: AccountId,
    ) -> (r: Result<UpgradeRecord, Error>)
        ensures
            r == direct_result(latest_version, last_upgrade_at, new_version, changelog_hash, now, delay, admin),
            new_version <= latest_version ==> r == Err::<UpgradeRecord, Error>(Error::VersionNotMonotonic),
            new_version > latest_version && delay > 0 && now < direct_upgrade_earliest(last_upgrade_at, delay)
                ==> r == Err::<UpgradeRecord, Error>(Error::TimelockNotElapsed),
            new_version > latest_version && (delay == 0 || now >= direct_upgrade_earliest(last_upgrade_at, delay))
                ==> r == Ok::<UpgradeRecord, Error>(UpgradeRecord {
                    old_version: latest_version, new_version, changelog_hash, timestamp: now, admin }),
    {
        if new_version <= latest_version {
            return Err(Error::VersionNotMonotonic);
        }
        if delay > 0 {
            let last: u64 = match last_upgrade_at {
                Some(t) => t,
                None => 0,
            };
            let earliest = last.saturating_add(delay);
            if now < earliest {
                return Err(Error::TimelockNotElapsed);
            }
        }
        Ok(UpgradeRecord { old_version: latest_version, new_version, changelog_hash, timestamp: now, admin })
    }

    /// Subscribe to a contract's upgrade notifications (once).
    pub fn subscribe(subscribers: &mut Vec<AccountId>, subscriber: AccountId) -> (r: Result<(), Error>)
        ensures
            old(subscribers)@.contains(subscriber) ==> r == Err::<(), Error>(Error::AlreadySubscribed)
                && final(subscribers)@ == old(subscribers)@,
            !old(subscribers)@.contains(subscriber) ==> r is Ok
                && final(subscribers)@ == old(subscribers)@.push(subscriber),
    {
        if position_of(subscribers, subscriber).is_some() {
            return Err(Error::AlreadySubscribed);
        }
        subscribers.push(subscriber);
        Ok(())
    }

    /// Unsubscribe: the list without the subscriber, others in order.
    pub fn unsubscribe(subscribers: &Vec<AccountId>, subscriber: AccountId) -> (r: Result<Vec<AccountId>, Error>)
        ensures
            !subscribers@.contains(subscriber) ==> r == Err::<Vec<AccountId>, Error>(Error::NotSubscribed),
            subscribers@.contains(subscriber) ==> r is Ok,
            r matches Ok(next) ==> next@ == without(subscribers@, subscriber),
    {
        if position_of(subscribers, subscriber).is_none() {
            return Err(Error::NotSubscribed);
        }
        Ok(without_account(subscribers, subscriber))
    }

    /// Only the admin records a contract's source commit, once per contract.
    pub fn register_source_commit(stored_admin: Option<AccountId>, caller: AccountId, already_registered: bool) -> (r: Result<(), Error>)
        ensures
            stored_admin is None ==> r == Err::<(), Error>(Error::NotInitialized),
            stored_admin matches Some(a) && a != caller ==> r == Err::<(), Error>(Error::NotAdmin),
            stored_admin == Some(caller) && already_registered ==> r == Err::<(), Error>(Error::SourceCommitAlreadyRegistered),
            stored_admin == Some(caller) && !already_registered ==> r is Ok,
    {
        let admin = match stored_admin {
            Some(a) => a,
            None => return Err(Error::NotInitialized),
        };
        if admin != caller {
            return Err(Error::NotAdmin);
        }
        if already_registered {
            return Err(Error::SourceCommitAlreadyRegistered);
        }
        Ok(())
    }
}

/// Subscribing and then unsubscribing restores the subscriber list.
pub proof fn law_subscribe_then_unsubscribe(subscribers: Seq<AccountId>, subscriber: AccountId)
    requires
        !subscribers.contains(subscriber),
    ensures
        without(subscribers.push(subscriber), subscriber) == subscribers,
{
    assert(subscribers.push(subscriber).drop_last() =~= subscribers);
    lemma_without_absent(subscribers, subscriber);
}

/// No upgrade path accepts a version that does not exceed the registered
/// one: scheduling, direct registration and the direct upgrade all refuse it.
pub proof fn law_no_path_accepts_a_lower_version(
    latest_version: u32,
    new_version: u32,
    old_version: u32,
    pending_exists: bool,
    last_upgrade_at: Option<u64>,
    changelog_hash: Hash32,
    now: u64,
    delay: u64,
    admin: AccountId,
)
    requires
        new_version <= latest_version,
    ensures
        schedule_result(latest_version, pending_exists, new_version, changelog_hash, now, delay, admin) is Err,
        register_result(latest_version, old_version, new_version, changelog_hash, now, admin)
            == Err::<UpgradeRecord, Error>(Error::VersionNotMonotonic),
        direct_result(latest_version, last_upgrade_at, new_version, changelog_hash, now, delay, admin)
            == Err::<UpgradeRecord, Error>(Error::VersionNotMonotonic),
{
}

/// An upgrade scheduled at `scheduled_at` executes only once the delay has
/// passed: any successful execution happens at `scheduled_at + delay` or
/// later (for schedules whose end time fits in a `u64`).
pub proof fn law_scheduled_upgrade_waits_for_delay(
    latest_version: u32,
    new_version: u32,
    changelog_hash: Hash32,
    scheduled_at: u64,
    delay: u64,
    admin: AccountId,
    version_at_execution: u32,
    now: u64,
    executor: AccountId,
)
    requires
        scheduled_at + delay <= u64::MAX,
        schedule_result(latest_version, false, new_version, changelog_hash, scheduled_at, delay, admin) is Ok,
        execute_result(
            Some(schedule_result(latest_version, false, new_version, changelog_hash, scheduled_at, delay, admin)->Ok_0),
            version_at_execution,
            now,
            executor,
        ) is Ok,
    ensures
        now >= scheduled_at + delay,
{
}

/// Through the two-step path the registered version strictly rises: when
/// nothing else changed the version in between, the executed record goes
/// from the version at scheduling time to a higher one.
pub proof fn law_two_step_upgrade_raises_version(
    latest_version: u32,
    new_version: u32,
    changelog_hash: Hash32,
    scheduled_at: u64,
    delay: u64,
    admin: AccountId,
    now: u64,
)
    requires
        schedule_result(latest_version, false, new_version, changelog_hash, scheduled_at, delay, admin) is Ok,
        execute_result(
            Some(schedule_result(latest_version, false, new_version, changelog_hash, scheduled_at, delay, admin)->Ok_0),
            latest_version,
            now,
            admin,
        ) is Ok,
    ensures ({
        let rec = execute_result(
            Some(schedule_result(latest_version, false, new_version, changelog_hash, scheduled_at, delay, admin)->Ok_0),
            latest_version,
            now,
            admin,
        )->Ok_0;
        &&& rec.old_version == latest_version
        &&& rec.new_version == new_version
        &&& rec.new_version > rec.old_version
    }),
{
}

} // verus!
