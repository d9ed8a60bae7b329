use mentorsmind::session_registry::{
    ContentAccessPolicy, Rejection, SessionRecord, SessionRegistry, SessionStatus, UsageKind,
};
use mentorsmind::shared_error::SharedError;
use mentorsmind::types::AccountId;

const NOW: u64 = 1_000_000;

fn register(id: &str, mentor: AccountId, learner: AccountId, duration: u32, amount: i128, exists: bool) -> SessionRecord {
    match SessionRegistry::register_session(
        true,
        exists,
        id.to_string(),
        mentor,
        learner,
        2_000_000,
        duration,
        amount,
        AccountId { id: 99 },
        NOW,
    ) {
        Ok(r) => r,
        Err(e) => panic!("{}", e.message()),
    }
}

#[test]
fn test_register_session() {
    let mentor = AccountId { id: 1 };
    let learner = AccountId { id: 2 };
    let record = register("sess1", mentor, learner, 60, 100, false);
    assert_eq!(record.session_id, "sess1");
    assert_eq!(record.status, SessionStatus::Pending);
    assert_eq!(record.mentor, mentor);
    assert_eq!(record.learner, learner);
    assert_eq!(record.duration_mins, 60);
    assert_eq!(record.registered_at, NOW);
    assert_eq!(record.protected_content.len(), 0);
    assert_eq!(record.content_licenses.len(), 0);
}

#[test]
fn test_update_status_full_lifecycle() {
    let record = register("sess2", AccountId { id: 1 }, AccountId { id: 2 }, 45, 200, false);
    let record = SessionRegistry::update_status(true, Some(record), SessionStatus::Confirmed).unwrap();
    assert_eq!(record.status, SessionStatus::Confirmed);
    let record = SessionRegistry::update_status(true, Some(record), SessionStatus::Completed).unwrap();
    assert_eq!(record.status, SessionStatus::Completed);
    assert_eq!(record.duration_mins, 45);
}

#[test]
fn test_get_sessions_by_mentor_and_learner() {
    let mentor = AccountId { id: 1 };
    let learner = AccountId { id: 2 };
    let mut mentor_sessions: Vec<String> = Vec::new();
    let mut learner_sessions: Vec<String> = Vec::new();
    for sid in ["s1", "s2", "s3"] {
        let record = register(sid, mentor, learner, 60, 100, mentor_sessions.iter().any(|s| s == sid));
        mentor_sessions.push(record.session_id.clone());
        learner_sessions.push(record.session_id);
    }
    assert_eq!(mentor_sessions.len(), 3);
    assert_eq!(learner_sessions.len(), 3);
}

#[test]
fn test_cancel_session() {
    let record = register("sess_cancel", AccountId { id: 1 }, AccountId { id: 2 }, 30, 50, false);
    let record = SessionRegistry::update_status(true, Some(record), SessionStatus::Cancelled).unwrap();
    assert_eq!(record.status, SessionStatus::Cancelled);
}

#[test]
#[should_panic(expected = "Duplicate session")]
fn test_duplicate_session_rejected() {
    let mentor = AccountId { id: 1 };
    let learner = AccountId { id: 2 };
    register("sess_dup", mentor, learner, 60, 100, false);
    register("sess_dup", mentor, learner, 60, 100, true);
}

#[test]
fn registry_refuses_before_initialization_and_for_unknown_sessions() {
    let r = SessionRegistry::register_session(
        false, false, "s".to_string(), AccountId { id: 1 }, AccountId { id: 2 }, 0, 1, 1, AccountId { id: 3 }, 0,
    );
    assert_eq!(r.unwrap_err(), Rejection::NotInitialized);
    assert_eq!(
        SessionRegistry::update_status(true, None, SessionStatus::Completed).unwrap_err(),
        Rejection::SessionNotFound
    );
    assert_eq!(SessionRegistry::initialize(true).unwrap_err(), Rejection::AlreadyInitialized);
    assert!(SessionRegistry::initialize(false).is_ok());
}

#[test]
fn oracle_updates_need_the_configured_oracle() {
    let oracle = AccountId { id: 50 };
    let record = register("s", AccountId { id: 1 }, AccountId { id: 2 }, 60, 100, false);
    assert_eq!(
        SessionRegistry::update_status_from_oracle(None, oracle, None, SessionStatus::Completed).unwrap_err(),
        Rejection::OracleNotConfigured
    );
    assert_eq!(
        SessionRegistry::update_status_from_oracle(Some(AccountId { id: 51 }), oracle, None, SessionStatus::Completed)
            .unwrap_err(),
        Rejection::Unauthorized
    );
    let updated =
        SessionRegistry::update_status_from_oracle(Some(oracle), oracle, Some(record), SessionStatus::Completed).unwrap();
    assert_eq!(updated.status, SessionStatus::Completed);
}

#[test]
fn session_content_of_unknown_session_is_empty() {
    assert!(SessionRegistry::get_session_content(None).is_empty());
    let mut record = register("s", AccountId { id: 1 }, AccountId { id: 2 }, 60, 100, false);
    record.protected_content.push("c1".to_string());
    assert_eq!(SessionRegistry::get_session_content(Some(record)), vec!["c1".to_string()]);
}

#[test]
fn content_access_rules() {
    let owner = AccountId { id: 1 };
    let viewer = AccountId { id: 2 };
    let stranger = AccountId { id: 3 };
    let policy = |public: bool| ContentAccessPolicy { owner, authorized_viewers: vec![viewer], public };
    assert_eq!(SessionRegistry::validate_content_access(Some(policy(false)), owner, UsageKind::Other), Ok(true));
    assert_eq!(SessionRegistry::validate_content_access(Some(policy(false)), viewer, UsageKind::Other), Ok(true));
    assert_eq!(SessionRegistry::validate_content_access(Some(policy(false)), stranger, UsageKind::View), Ok(false));
    assert_eq!(SessionRegistry::validate_content_access(Some(policy(true)), stranger, UsageKind::View), Ok(true));
    assert_eq!(SessionRegistry::validate_content_access(Some(policy(true)), stranger, UsageKind::Other), Ok(false));
    assert_eq!(
        SessionRegistry::validate_content_access(None, stranger, UsageKind::View),
        Err(SharedError::NotFound)
    );
}

#[test]
fn mentor_attaches_protected_content() {
    let mentor = AccountId { id: 1 };
    let learner = AccountId { id: 2 };
    let rec = register("sess9", mentor, learner, 60, 100, false);
    let next = SessionRegistry::manage_session_content(Some(rec), mentor, "notes".to_string(), Ok(())).unwrap();
    assert_eq!(next.protected_content, vec!["notes".to_string()]);
    assert!(next.content_licenses.is_empty());
    assert_eq!(next.session_id, "sess9");
    let rec = register("sess9", mentor, learner, 60, 100, false);
    assert_eq!(
        SessionRegistry::manage_session_content(Some(rec), learner, "notes".to_string(), Ok(())).unwrap_err(),
        SharedError::Unauthorized
    );
    let rec = register("sess9", mentor, learner, 60, 100, false);
    assert_eq!(
        SessionRegistry::manage_session_content(Some(rec), mentor, "notes".to_string(), Err(SharedError::InvalidState))
            .unwrap_err(),
        SharedError::InvalidState
    );
    assert_eq!(
        SessionRegistry::manage_session_content(None, mentor, "notes".to_string(), Ok(())).unwrap_err(),
        SharedError::NotFound
    );
}

#[test]
fn only_the_owning_mentor_licenses_content() {
    let mentor = AccountId { id: 1 };
    let learner = AccountId { id: 2 };
    let rec = register("sess8", mentor, learner, 30, 50, false);
    let next = SessionRegistry::create_content_license(Some(rec), Some(mentor), "license".to_string(), Ok(())).unwrap();
    assert_eq!(next.content_licenses, vec!["license".to_string()]);
    assert!(next.protected_content.is_empty());
    let rec = register("sess8", mentor, learner, 30, 50, false);
    assert_eq!(
        SessionRegistry::create_content_license(Some(rec), Some(learner), "license".to_string(), Ok(())).unwrap_err(),
        SharedError::Unauthorized
    );
    let rec = register("sess8", mentor, learner, 30, 50, false);
    assert_eq!(
        SessionRegistry::create_content_license(Some(rec), None, "license".to_string(), Ok(())).unwrap_err(),
        SharedError::NotFound
    );
    let rec = register("sess8", mentor, learner, 30, 50, false);
    assert_eq!(
        SessionRegistry::create_content_license(Some(rec), Some(mentor), "license".to_string(), Err(SharedError::InvalidAmount))
            .unwrap_err(),
        SharedError::InvalidAmount
    );
}

#[test]
fn violations_are_reported_by_owner_or_viewers() {
    let owner = AccountId { id: 1 };
    let viewer = AccountId { id: 2 };
    let stranger = AccountId { id: 3 };
    let policy = || ContentAccessPolicy { owner, authorized_viewers: vec![viewer], public: true };
    assert_eq!(SessionRegistry::enforce_ip_rights(Some(policy()), owner), Ok(()));
    assert_eq!(SessionRegistry::enforce_ip_rights(Some(policy()), viewer), Ok(()));
    assert_eq!(SessionRegistry::enforce_ip_rights(Some(policy()), stranger), Err(SharedError::Unauthorized));
    assert_eq!(SessionRegistry::enforce_ip_rights(None, owner), Err(SharedError::NotFound));
}

#[test]
fn only_session_participants_use_its_content() {
    let mentor = AccountId { id: 1 };
    let learner = AccountId { id: 2 };
    let stranger = AccountId { id: 3 };
    let rec = Some(register("sess7", mentor, learner, 30, 50, false));
    assert_eq!(SessionRegistry::track_content_usage(&rec, mentor, true), Ok(()));
    assert_eq!(SessionRegistry::track_content_usage(&rec, learner, true), Ok(()));
    assert_eq!(SessionRegistry::track_content_usage(&rec, stranger, true), Err(SharedError::Unauthorized));
    assert_eq!(SessionRegistry::track_content_usage(&rec, learner, false), Err(SharedError::NotFound));
    assert_eq!(SessionRegistry::track_content_usage(&None, learner, true), Err(SharedError::NotFound));
}
