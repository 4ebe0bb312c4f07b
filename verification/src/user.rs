//! The session manager: one object owning the current user, the token pair,
//! the expiry instant, the pending CSRF authorization and the persisted
//! record. The application wraps it in its own mutual exclusion and drives
//! the network steps, feeding each outcome back in as a plain value; every
//! decision and every state change is made here.

use vstd::prelude::*;

use crate::AuthError;
use crate::models::{clone_opt_string, User};
use crate::storage::{record_plain, sealed_of, token_ok, valid_token, CryptoStore};

verus! {

/// What the remote token-refresh call came back with.
pub enum RefreshOutcome {
    /// A success response: the new access token and its time to live.
    Refreshed { access_token: String, expires_in: u64 },
    /// A response with a non-success status.
    Rejected,
    /// No response at all.
    NetworkFailure,
}

/// What the remote profile fetch came back with.
pub enum ProfileOutcome {
    /// A success response, already decoded.
    Fetched(User),
    /// A response with a non-success status.
    Rejected,
    /// No response at all.
    NetworkFailure,
}

/// `a + b`, stuck at the largest representable instant.
pub open spec fn sat_add_spec(a: u64, b: u64) -> u64 {
    if a + b <= u64::MAX {
        (a + b) as u64
    } else {
        u64::MAX
    }
}

pub fn sat_add(a: u64, b: u64) -> (r: u64)
    ensures
        r == sat_add_spec(a, b),
{
    if b > u64::MAX - a {
        u64::MAX
    } else {
        a + b
    }
}

pub struct SessionManager {
    pub user: Option<User>,
    pub access_token: Option<String>,
    pub refresh_token: Option<String>,
    /// Absolute expiry of the access token, in epoch seconds.
    pub expiry: u64,
    /// The sole in-flight CSRF state token, if any.
    pub pending_state: Option<String>,
    /// The persisted session record.
    pub store: CryptoStore,
}

impl SessionManager {
    /// Tokens held are storable, and a cached user never outlives its token.
    pub open spec fn wf(&self) -> bool {
        &&& (self.user is Some ==> self.access_token is Some)
        &&& (self.access_token matches Some(t) ==> valid_token(t@))
        &&& (self.refresh_token matches Some(t) ==> valid_token(t@))
    }

    /// A session is current: a user is cached and an access token is held.
    pub open spec fn logged_in(&self) -> bool {
        self.user is Some && self.access_token is Some
    }

    /// Everything a logout or an invalidation must leave behind: no user, no
    /// tokens, a zero expiry, and no persisted record.
    pub open spec fn is_cleared(&self) -> bool {
        &&& self.user is None
        &&& self.access_token is None
        &&& self.refresh_token is None
        &&& self.expiry == 0
        &&& self.store.file() is None
    }

    /// A fresh manager with no session and no persisted record.
    pub fn new() -> (r: Self)
        ensures
            r.is_cleared(),
            r.pending_state is None,
            r.wf(),
    {
        SessionManager {
            user: None,
            access_token: None,
            refresh_token: None,
            expiry: 0,
            pending_state: None,
            store: CryptoStore::new(),
        }
    }

    /// A fresh manager over a store rebuilt from disk, ready for
    /// [`SessionManager::startup_recovery`].
    pub fn from_store(store: CryptoStore) -> (r: Self)
        ensures
            r.user is None,
            r.access_token is None,
            r.refresh_token is None,
            r.expiry == 0,
            r.pending_state is None,
            r.store == store,
            r.wf(),
    {
        SessionManager {
            user: None,
            access_token: None,
            refresh_token: None,
            expiry: 0,
            pending_state: None,
            store,
        }
    }

    /// The cached user, stale-but-available: the caller wishing freshness
    /// drives a refresh round first ([`SessionManager::refresh_decision`]).
    pub fn get_user(&self) -> (r: Option<User>)
        ensures
            r == self.user,
    {
        match &self.user {
            None => None,
            Some(u) => Some(u.duplicate()),
        }
    }

    /// A user is cached and an access token is held.
    pub fn is_logged_in(&self) -> (r: bool)
        ensures
            r == self.logged_in(),
    {
        self.user.is_some() && self.access_token.is_some()
    }

    /// Clears the in-memory session and the persisted record; the pending
    /// authorization, if any, stays.
    pub fn clear(&mut self)
        ensures
            final(self).is_cleared(),
            final(self).pending_state == old(self).pending_state,
            final(self).wf(),
    {
        self.user = None;
        self.access_token = None;
        self.refresh_token = None;
        self.expiry = 0;
        self.store.clear();
    }

    /// Ends the session locally and hands back the refresh token, for the
    /// application's best-effort remote invalidation (whose outcome is
    /// ignored: logout is always locally effective).
    pub fn logout(&mut self) -> (r: Option<String>)
        ensures
            final(self).is_cleared(),
            final(self).pending_state == old(self).pending_state,
            r == old(self).refresh_token,
            final(self).wf(),
    {
        let token = clone_opt_string(&self.refresh_token);
        self.clear();
        token
    }

    /// Whether a refresh round trip must run now: only when a refresh token
    /// is held and the access token has expired, unless forced. `None` is the
    /// no-op success of a still-fresh token; `Some` carries the refresh token
    /// to send.
    pub fn refresh_decision(&self, now: u64, force: bool) -> (r: Option<String>)
        ensures
            r is Some <==> (self.refresh_token is Some && (force || self.expiry <= now)),
            r matches Some(t) ==> (self.refresh_token matches Some(rt) && t@ == rt@),
    {
        match &self.refresh_token {
            None => None,
            Some(t) => {
                if force || self.expiry <= now {
                    Some(t.clone())
                } else {
                    None
                }
            },
        }
    }

    /// Commits the outcome of a refresh round trip. Success replaces the
    /// access token and expiry in place, leaves the cached user, and writes
    /// the record through to the store. Any failure invalidates the whole
    /// session, memory and store alike.
    pub fn apply_refresh_outcome(&mut self, outcome: RefreshOutcome, now: u64) -> (r: Result<
        (),
        AuthError,
    >)
        requires
            old(self).wf(),
            old(self).refresh_token is Some,
            outcome matches RefreshOutcome::Refreshed { access_token, .. } ==> valid_token(
                access_token@,
            ),
        ensures
            final(self).wf(),
            final(self).pending_state == old(self).pending_state,
            outcome matches RefreshOutcome::Refreshed { access_token: at, expires_in: ei } ==> ({
                &&& r is Ok
                &&& final(self).access_token == Some(at)
                &&& final(self).refresh_token == old(self).refresh_token
                &&& final(self).user == old(self).user
                &&& final(self).expiry == sat_add_spec(now, ei)
                &&& (old(self).refresh_token matches Some(rt) && final(self).store.file() == Some(
                    sealed_of(record_plain(at@, rt@, sat_add_spec(now, ei))),
                ))
            }),
            outcome is Rejected ==> (r == Err::<(), AuthError>(AuthError::AuthRejected) && final(self).is_cleared()),
            outcome is NetworkFailure ==> (r == Err::<(), AuthError>(AuthError::NetworkError)
                && final(self).is_cleared()),
    {
        match outcome {
            RefreshOutcome::Refreshed { access_token, expires_in } => {
                let e = sat_add(now, expires_in);
                let rt = match &self.refresh_token {
                    Some(t) => t.clone(),
                    None => String::new(),
                };
                self.store.save(access_token.as_str(), rt.as_str(), e);
                self.access_token = Some(access_token);
                self.expiry = e;
                Ok(())
            },
            RefreshOutcome::Rejected => {
                self.clear();
                Err(AuthError::AuthRejected)
            },
            RefreshOutcome::NetworkFailure => {
                self.clear();
                Err(AuthError::NetworkError)
            },
        }
    }

    /// First step of the login procedure: stores the token pair and expiry
    /// provisionally and decides the refresh-if-needed pass. `Some` carries
    /// the refresh token the application must send; `None` means the pass is
    /// the no-op success.
    pub fn login_begin(
        &mut self,
        access_token: String,
        refresh_token: String,
        expiry: u64,
        now: u64,
    ) -> (r: Option<String>)
        requires
            old(self).wf(),
            valid_token(access_token@),
            valid_token(refresh_token@),
        ensures
            final(self).wf(),
            final(self).access_token == Some(access_token),
            final(self).refresh_token == Some(refresh_token),
            final(self).expiry == expiry,
            final(self).user == old(self).user,
            final(self).pending_state == old(self).pending_state,
            final(self).store == old(self).store,
            r is Some <==> expiry <= now,
            r matches Some(t) ==> t@ == refresh_token@,
    {
        self.access_token = Some(access_token);
        self.refresh_token = Some(refresh_token);
        self.expiry = expiry;
        self.refresh_decision(now, false)
    }

    /// Second step of the login procedure: commits the refresh pass (`None`
    /// when none was needed), writes the record through to the store, and on
    /// success hands back the access token to fetch the profile with. Any
    /// failure invalidates the whole session.
    pub fn login_after_refresh(&mut self, outcome: Option<RefreshOutcome>, now: u64) -> (r:
        Result<String, AuthError>)
        requires
            old(self).wf(),
            old(self).access_token is Some,
            old(self).refresh_token is Some,
            outcome matches Some(RefreshOutcome::Refreshed { access_token, .. }) ==> valid_token(
                access_token@,
            ),
        ensures
            final(self).wf(),
            final(self).pending_state == old(self).pending_state,
            r is Ok <==> (outcome is None || outcome matches Some(
                RefreshOutcome::Refreshed { .. },
            )),
            r matches Ok(t) ==> ({
                &&& final(self).access_token matches Some(a) && t@ == a@
                &&& final(self).refresh_token == old(self).refresh_token
                &&& final(self).user == old(self).user
                &&& (final(self).refresh_token matches Some(rt) && final(self).store.file()
                    == Some(
                    sealed_of(record_plain(t@, rt@, final(self).expiry)),
                ))
            }),
            outcome is None ==> final(self).access_token == old(self).access_token && final(self).expiry == old(self).expiry,
            outcome matches Some(RefreshOutcome::Refreshed { access_token: at, expires_in: ei })
                ==> final(self).access_token == Some(at) && final(self).expiry == sat_add_spec(
                now,
                ei,
            ),
            r is Err ==> final(self).is_cleared(),
            outcome matches Some(o) && o is Rejected ==> r == Err::<String, AuthError>(
                AuthError::AuthRejected,
            ),
            outcome matches Some(o) && o is NetworkFailure ==> r == Err::<String, AuthError>(
                AuthError::NetworkError,
            ),
    {
        match outcome {
            None => {
                let at = match &self.access_token {
                    Some(t) => t.clone(),
                    None => String::new(),
                };
                let rt = match &self.refresh_token {
                    Some(t) => t.clone(),
                    None => String::new(),
                };
                self.store.save(at.as_str(), rt.as_str(), self.expiry);
                Ok(at)
            },
            Some(o) => {
                match self.apply_refresh_outcome(o, now) {
                    Ok(_) => {
                        let at = match &self.access_token {
                            Some(t) => t.clone(),
                            None => String::new(),
                        };
                        Ok(at)
                    },
                    Err(e) => Err(e),
                }
            },
        }
    }

    /// Last step of the login procedure: caches the fetched profile and hands
    /// it back, or invalidates the whole session on a failed fetch.
    pub fn login_finish(&mut self, outcome: ProfileOutcome) -> (r: Result<User, AuthError>)
        requires
            old(self).wf(),
            old(self).access_token is Some,
        ensures
            final(self).wf(),
            final(self).pending_state == old(self).pending_state,
            outcome matches ProfileOutcome::Fetched(u) ==> ({
                &&& r matches Ok(ru) && ru == u
                &&& final(self).user == Some(u)
                &&& final(self).access_token == old(self).access_token
                &&& final(self).refresh_token == old(self).refresh_token
                &&& final(self).expiry == old(self).expiry
                &&& final(self).store == old(self).store
                &&& final(self).logged_in()
            }),
            outcome is Rejected ==> (r == Err::<User, AuthError>(AuthError::AuthRejected) && final(self).is_cleared()),
            outcome is NetworkFailure ==> (r == Err::<User, AuthError>(AuthError::NetworkError)
                && final(self).is_cleared()),
    {
        match outcome {
            ProfileOutcome::Fetched(u) => {
                self.user = Some(u.duplicate());
                Ok(u)
            },
            ProfileOutcome::Rejected => {
                self.clear();
                Err(AuthError::AuthRejected)
            },
            ProfileOutcome::NetworkFailure => {
                self.clear();
                Err(AuthError::NetworkError)
            },
        }
    }
}

/// How startup recovery resumed.
pub enum RecoveryAction {
    /// No usable persisted session: stay logged out.
    NoSession,
    /// Login resumed from the persisted record; the token is still fresh, so
    /// no refresh call is needed (continue with `login_after_refresh(None)`).
    Resume,
    /// Login resumed; the remote refresh must run with this token first
    /// (then continue with `login_after_refresh(Some(..))`).
    RefreshWith(String),
}

impl SessionManager {
    /// Startup recovery: loads the persisted record and, when both tokens
    /// are present, resumes the login procedure with them, without a new
    /// browser round trip. A record that cannot be read is no session and is
    /// removed.
    pub fn startup_recovery(&mut self, now: u64) -> (r: RecoveryAction)
        requires
            old(self).wf(),
            old(self).user is None,
            old(self).access_token is None,
            old(self).refresh_token is None,
        ensures
            final(self).wf(),
            old(self).store.file() is None ==> (r is NoSession && *final(self) == *old(self)),
            forall|a: Seq<char>, rr: Seq<char>, e: u64|
                valid_token(a) && valid_token(rr) && a.len() > 0 && rr.len() > 0 && old(
                    self,
                ).store.file() == Some(sealed_of(record_plain(a, rr, e))) ==> ({
                    &&& final(self).access_token matches Some(at) && at@ == a
                    &&& final(self).refresh_token matches Some(rt) && rt@ == rr
                    &&& final(self).expiry == e
                    &&& final(self).user is None
                    &&& final(self).store == old(self).store
                    &&& (e > now ==> r is Resume)
                    &&& (e <= now ==> (r matches RecoveryAction::RefreshWith(t) && t@ == rr))
                }),
            r is NoSession ==> final(self).user is None && final(self).access_token is None,
    {
        let loaded = self.store.load();
        match loaded {
            Err(_) => {
                self.store.clear();
                RecoveryAction::NoSession
            },
            Ok((a, rt, e)) => {
                if a.as_str().is_empty() || rt.as_str().is_empty() {
                    return RecoveryAction::NoSession;
                }
                if !(token_ok(a.as_str()) && token_ok(rt.as_str())) {
                    self.store.clear();
                    return RecoveryAction::NoSession;
                }
                match self.login_begin(a, rt, e, now) {
                    None => RecoveryAction::Resume,
                    Some(t) => RecoveryAction::RefreshWith(t),
                }
            },
        }
    }
}

/// Idempotence of the read-only queries: with a still-fresh token no refresh
/// call is decided, and any two `get_user` reads of one state return the same
/// user.
pub proof fn lemma_get_user_idempotent(
    m: SessionManager,
    now: u64,
    d: Option<String>,
    r1: Option<User>,
    r2: Option<User>,
)
    requires
        now < m.expiry,
        call_ensures(SessionManager::refresh_decision, (&m, now, false), d),
        call_ensures(SessionManager::get_user, (&m,), r1),
        call_ensures(SessionManager::get_user, (&m,), r2),
    ensures
        d is None,
        r1 == r2,
{
}

/// Invalidation completeness: once a manager is cleared, `is_logged_in`
/// reports false and the persisted store loads as the empty/zero session.
pub proof fn lemma_invalidation_complete(
    m: SessionManager,
    li: bool,
    ld: Result<(String, String, u64), AuthError>,
)
    requires
        m.is_cleared(),
        call_ensures(SessionManager::is_logged_in, (&m,), li),
        call_ensures(CryptoStore::load, (&m.store,), ld),
    ensures
        !li,
        ld matches Ok(t) && t.0@ == Seq::<char>::empty() && t.1@ == Seq::<char>::empty() && t.2
            == 0,
{
}

} // verus!
