//! Registry of mentoring sessions: registration by the platform backend,
//! status updates by the backend or the session oracle, and access checks
//! on a session's protected content.
use vstd::prelude::*;
use crate::types::AccountId;
use crate::shared_error::SharedError;

verus! {

/// Where a session stands.
#[derive(Clone, Copy, Debug, PartialEq, Eq, Structural)]
pub enum SessionStatus {
    Pending,
    Confirmed,
    Completed,
    Cancelled,
}

/// A registered session.
#[derive(Debug)]
pub struct SessionRecord {
    pub session_id: String,
    pub mentor: AccountId,
    pub learner: AccountId,
    pub scheduled_at: u64,
    pub duration_mins: u32,
    pub amount: i128,
    pub token: AccountId,
    pub status: SessionStatus,
    pub registered_at: u64,
    /// Ids of the protected content attached to the session.
    pub protected_content: Vec<String>,
    /// Ids of the licenses granted on that content.
    pub content_licenses: Vec<String>,
}

/// Why a registry request is refused (each aborts the transaction).
#[derive(Clone, Copy, Debug, PartialEq, Eq, Structural)]
pub enum Rejection {
    AlreadyInitialized,
    NotInitialized,
    Unauthorized,
    SessionNotFound,
    DuplicateSession,
    OracleNotConfigured,
}

/// The message a `Rejection` aborts the transaction with.
pub open spec fn rejection_message(r: Rejection) -> Seq<char> {
    match r {
        Rejection::AlreadyInitialized => "Already initialized"@,
        Rejection::NotInitialized => "Not initialized"@,
        Rejection::Unauthorized => "Unauthorized"@,
        Rejection::SessionNotFound => "Session not found"@,
        Rejection::DuplicateSession => "Duplicate session"@,
        Rejection::OracleNotConfigured => "Session oracle not configured"@,
    }
}

impl Rejection {
    /// The message the transaction aborts with.
    pub fn message(&self) -> (m: &'static str)
        ensures
            m@ == rejection_message(*self),
    {
        match self {
            Rejection::AlreadyInitialized => "Already initialized",
            Rejection::NotInitialized => "Not initialized",
            Rejection::Unauthorized => "Unauthorized",
            Rejection::SessionNotFound => "Session not found",
            Rejection::DuplicateSession => "Duplicate session",
            Rejection::OracleNotConfigured => "Session oracle not configured",
        }
    }
}

/// What the access check reads of a piece of protected content.
#[derive(Debug)]
pub struct ContentAccessPolicy {
    pub owner: AccountId,
    pub authorized_viewers: Vec<AccountId>,
    /// Whether the content's access level is public.
    pub public: bool,
}

/// The kind of use requested of a piece of content.
#[derive(Clone, Copy, Debug, PartialEq, Eq, Structural)]
pub enum UsageKind {
    View,
    /// Any use beyond viewing (download, sharing, modification, ...).
    Other,
}

/// A session record with only its status replaced.
pub open spec fn with_status(r: SessionRecord, status: SessionStatus) -> SessionRecord {
    SessionRecord { status, ..r }
}

/// Whether `user` may use content under `policy` in the requested way:
/// the owner and authorised viewers always, anyone may view public content.
pub open spec fn may_access(policy: ContentAccessPolicy, user: AccountId, usage: UsageKind) -> bool {
    ||| policy.owner == user
    ||| policy.authorized_viewers@.contains(user)
    ||| (policy.public && usage == UsageKind::View)
}

/// The session registry contract's entry points.
pub struct SessionRegistry;

impl SessionRegistry {
    /// The registry is set up once, with its backend.
    pub fn initialize(already_initialized: bool) -> (r: Result<(), Rejection>)
        ensures
            already_initialized <==> r == Err::<(), Rejection>(Rejection::AlreadyInitialized),
            !already_initialized <==> r is Ok,
    {
        if already_initialized { Err(Rejection::AlreadyInitialized) } else { Ok(()) }
    }

    /// The backend registers a new session: a pending record with no
    /// content yet.
    pub fn register_session(
        initialized: bool,
        already_registered: bool,
        session_id: String,
        mentor: AccountId,
        learner: AccountId,
        scheduled_at: u64,
        duration_mins: u32,
        amount: i128,
        token: AccountId,
        now: u64,
    ) -> (r: Result<SessionRecord, Rejection>)
        ensures
            !initialized ==> r == Err::<SessionRecord, Rejection>(Rejection::NotInitialized),
            initialized && already_registered ==> r == Err::<SessionRecord, Rejection>(Rejection::DuplicateSession),
            initialized && !already_registered ==> r is Ok,
            r matches Ok(rec) ==> {
                &&& rec.session_id == session_id
                &&& rec.mentor == mentor
                &&& rec.learner == learner
                &&& rec.scheduled_at == scheduled_at
                &&& rec.duration_mins == duration_mins
                &&& rec.amount == amount
                &&& rec.token == token
                &&& rec.status == SessionStatus::Pending
                &&& rec.registered_at == now
                &&& rec.protected_content@.len() == 0
                &&& rec.content_licenses@.len() == 0
            },
    {
        if !initialized {
            return Err(Rejection::NotInitialized);
        }
        if already_registered {
            return Err(Rejection::DuplicateSession);
        }
        Ok(SessionRecord {
            session_id,
            mentor,
            learner,
            scheduled_at,
            duration_mins,
            amount,
            token,
            status: SessionStatus::Pending,
            registered_at: now,
            protected_content: Vec::new(),
            content_licenses: Vec::new(),
        })
    }

    /// The backend sets a session's status; nothing else changes.
    pub fn update_status(initialized: bool, record: Option<SessionRecord>, status: SessionStatus) -> (r: Result<SessionRecord, Rejection>)
        ensures
            !initialized ==> r == Err::<SessionRecord, Rejection>(Rejection::NotInitialized),
            initialized && record is None ==> r == Err::<SessionRecord, Rejection>(Rejection::SessionNotFound),
            initialized ==> match record {
                Some(rec) => r == Ok::<SessionRecord, Rejection>(with_status(rec, status)),
                None => true,
            },
    {
        if !initialized {
            return Err(Rejection::NotInitialized);
        }
        let mut rec = match record {
            Some(rec) => rec,
            None => return Err(Rejection::SessionNotFound),
        };
        rec.status = status;
        Ok(rec)
    }

    /// The configured session oracle sets a session's status.
    pub fn update_status_from_oracle(
        configured_oracle: Option<AccountId>,
        oracle: AccountId,
        record: Option<SessionRecord>,
        status: SessionStatus,
    ) -> (r: Result<SessionRecord, Rejection>)
        ensures
            configured_oracle is None ==> r == Err::<SessionRecord, Rejection>(Rejection::OracleNotConfigured),
            configured_oracle matches Some(o) && o != oracle ==> r == Err::<SessionRecord, Rejection>(Rejection::Unauthorized),
            configured_oracle == Some(oracle) && record is None ==> r == Err::<SessionRecord, Rejection>(Rejection::SessionNotFound),
            configured_oracle == Some(oracle) ==> match record {
                Some(rec) => r == Ok::<SessionRecord, Rejection>(with_status(rec, status)),
                None => true,
            },
    {
        let configured = match configured_oracle {
            Some(o) => o,
            None => return Err(Rejection::OracleNotConfigured),
        };
        if oracle != configured {
            return Err(Rejection::Unauthorized);
        }
        let mut rec = match record {
            Some(rec) => rec,
            None => return Err(Rejection::SessionNotFound),
        };
        rec.status = status;
        Ok(rec)
    }

    /// The content ids attached to a session (none for an unknown session).
    pub fn get_session_content(record: Option<SessionRecord>) -> (ids: Vec<String>)
        ensures
            match record {
                Some(rec) => ids@ == rec.protected_content@,
                None => ids@.len() == 0,
            },
    {
        match record {
            Some(rec) => rec.protected_content,
            None => Vec::new(),
        }
    }

    /// Whether `user` may use a piece of content in the requested way.
    pub fn validate_content_access(policy: Option<ContentAccessPolicy>, user: AccountId, usage: UsageKind) -> (r: Result<bool, SharedError>)
        ensures
            policy is None ==> r == Err::<bool, SharedError>(SharedError::NotFound),
            match policy {
                Some(p) => r == Ok::<bool, SharedError>(may_access(p, user, usage)),
                None => true,
            },
    {
        let p = match policy {
            Some(p) => p,
            None => return Err(SharedError::NotFound),
        };
        if p.owner == user {
            return Ok(true);
        }
        let mut i: usize = 0;
        while i < p.authorized_viewers.len()
            invariant
                0 <= i <= p.authorized_viewers@.len(),
                policy == Some(p),
                p.owner != user,
                forall|j: int| 0 <= j < i ==> p.authorized_viewers@[j] != user,
            decreases p.authorized_viewers@.len() - i,
        {
            if p.authorized_viewers[i] == user {
                return Ok(true);
            }
            i = i + 1;
        }
        if p.public && usage == UsageKind::View {
            return Ok(true);
        }
        Ok(false)
    }
    /// The session's mentor attaches protected content to it.
    ///
    /// `protection` is the outcome of creating the protected-content record
    /// for `content_id` (made by the content-protection component once the
    /// session and its mentor are confirmed); when it succeeded the content
    /// id is appended to the session's content list.
    pub fn manage_session_content(
        record: Option<SessionRecord>,
        mentor: AccountId,
        content_id: String,
        protection: Result<(), SharedError>,
    ) -> (r: Result<SessionRecord, SharedError>)
        ensures
            record is None ==> r == Err::<SessionRecord, SharedError>(SharedError::NotFound),
            match record {
                Some(rec) => {
                    &&& rec.mentor != mentor ==> r == Err::<SessionRecord, SharedError>(SharedError::Unauthorized)
                    &&& rec.mentor == mentor ==> match protection {
                        Err(e) => r == Err::<SessionRecord, SharedError>(e),
                        Ok(_) => r matches Ok(next) && content_attached(rec, next, content_id),
                    }
                },
                None => true,
            },
    {
        let mut rec = match record {
            Some(rec) => rec,
            None => return Err(SharedError::NotFound),
        };
        if rec.mentor != mentor {
            return Err(SharedError::Unauthorized);
        }
        if let Err(e) = protection {
            return Err(e);
        }
        rec.protected_content.push(content_id);
        Ok(rec)
    }

    /// The session's mentor licenses its content: the content must exist
    /// (`content_owner` is its owner) and be owned by the session's mentor.
    ///
    /// `license` is the outcome of creating the license record stored under
    /// `license_id`; when it succeeded the id is appended to the session's
    /// licenses.
    pub fn create_content_license(
        record: Option<SessionRecord>,
        content_owner: Option<AccountId>,
        license_id: String,
        license: Result<(), SharedError>,
    ) -> (r: Result<SessionRecord, SharedError>)
        ensures
            record is None || content_owner is None ==> r == Err::<SessionRecord, SharedError>(SharedError::NotFound),
            match (record, content_owner) {
                (Some(rec), Some(owner)) => {
                    &&& owner != rec.mentor ==> r == Err::<SessionRecord, SharedError>(SharedError::Unauthorized)
                    &&& owner == rec.mentor ==> match license {
                        Err(e) => r == Err::<SessionRecord, SharedError>(e),
                        Ok(_) => r matches Ok(next) && license_attached(rec, next, license_id),
                    }
                },
                _ => true,
            },
    {
        let mut rec = match record {
            Some(rec) => rec,
            None => return Err(SharedError::NotFound),
        };
        let owner = match content_owner {
            Some(o) => o,
            None => return Err(SharedError::NotFound),
        };
        if owner != rec.mentor {
            return Err(SharedError::Unauthorized);
        }
        if let Err(e) = license {
            return Err(e);
        }
        rec.content_licenses.push(license_id);
        Ok(rec)
    }

    /// The checks that precede tracking a use of session content: the
    /// session must exist, `user` must be its mentor or its learner, and the
    /// content must exist (`content_exists`).  Verifying the user's access to
    /// the content and recording the use belong to the content-protection
    /// component.
    pub fn track_content_usage(record: &Option<SessionRecord>, user: AccountId, content_exists: bool) -> (r: Result<(), SharedError>)
        ensures
            record is None ==> r == Err::<(), SharedError>(SharedError::NotFound),
            match record {
                Some(rec) => if rec.mentor != user && rec.learner != user {
                        r == Err::<(), SharedError>(SharedError::Unauthorized)
                    } else if !content_exists {
                        r == Err::<(), SharedError>(SharedError::NotFound)
                    } else {
                        r == Ok::<(), SharedError>(())
                    },
                None => true,
            },
    {
        match record {
            None => Err(SharedError::NotFound),
            Some(rec) => {
                if rec.mentor != user && rec.learner != user {
                    Err(SharedError::Unauthorized)
                } else if !content_exists {
                    Err(SharedError::NotFound)
                } else {
                    Ok(())
                }
            },
        }
    }

    /// Whether a violation report by `reporter` on a piece of content is
    /// accepted: the content must exist and the reporter be its owner or an
    /// authorised viewer.
    pub fn enforce_ip_rights(policy: Option<ContentAccessPolicy>, reporter: AccountId) -> (r: Result<(), SharedError>)
        ensures
            policy is None ==> r == Err::<(), SharedError>(SharedError::NotFound),
            match policy {
                Some(p) => if may_report(p, reporter) {
                        r == Ok::<(), SharedError>(())
                    } else {
                        r == Err::<(), SharedError>(SharedError::Unauthorized)
                    },
                None => true,
            },
    {
        let p = match policy {
            Some(p) => p,
            None => return Err(SharedError::NotFound),
        };
        if p.owner == reporter {
            return Ok(());
        }
        let mut i: usize = 0;
        while i < p.authorized_viewers.len()
            invariant
                0 <= i <= p.authorized_viewers@.len(),
                policy == Some(p),
                p.owner != reporter,
                forall|j: int| 0 <= j < i ==> p.authorized_viewers@[j] != reporter,
            decreases p.authorized_viewers@.len() - i,
        {
            if p.authorized_viewers[i] == reporter {
                return Ok(());
            }
            i = i + 1;
        }
        Err(SharedError::Unauthorized)
    }
}


/// `next` is `r` with `id` appended to its protected content.
pub open spec fn content_attached(r: SessionRecord, next: SessionRecord, id: String) -> bool {
    &&& next.protected_content@ == r.protected_content@.push(id)
    &&& next.content_licenses@ == r.content_licenses@
    &&& next.session_id == r.session_id
    &&& next.mentor == r.mentor
    &&& next.learner == r.learner
    &&& next.scheduled_at == r.scheduled_at
    &&& next.duration_mins == r.duration_mins
    &&& next.amount == r.amount
    &&& next.token == r.token
    &&& next.status == r.status
    &&& next.registered_at == r.registered_at
}

/// `next` is `r` with `id` appended to its content licenses.
pub open spec fn license_attached(r: SessionRecord, next: SessionRecord, id: String) -> bool {
    &&& next.content_licenses@ == r.content_licenses@.push(id)
    &&& next.protected_content@ == r.protected_content@
    &&& next.session_id == r.session_id
    &&& next.mentor == r.mentor
    &&& next.learner == r.learner
    &&& next.scheduled_at == r.scheduled_at
    &&& next.duration_mins == r.duration_mins
    &&& next.amount == r.amount
    &&& next.token == r.token
    &&& next.status == r.status
    &&& next.registered_at == r.registered_at
}

/// Whether `reporter` may report a violation on content under `policy`:
/// its owner or one of its authorised viewers.
pub open spec fn may_report(policy: ContentAccessPolicy, reporter: AccountId) -> bool {
    policy.owner == reporter || policy.authorized_viewers@.contains(reporter)
}

/// A later status update overrides an earlier one.
pub proof fn law_latest_status_wins(r: SessionRecord, first: SessionStatus, second: SessionStatus)
    ensures
        with_status(with_status(r, first), second) == with_status(r, second),
{
}

/// A status update leaves everything but the status unchanged.
pub proof fn law_status_update_keeps_details(r: SessionRecord, status: SessionStatus)
    ensures
        with_status(r, status).session_id == r.session_id,
        with_status(r, status).mentor == r.mentor,
        with_status(r, status).learner == r.learner,
        with_status(r, status).amount == r.amount,
        with_status(r, status).protected_content == r.protected_content,
        with_status(r, status).status == status,
{
}

} // verus!
