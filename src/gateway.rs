//! The decisions of the gateway: where logins go, how a status check merges
//! the remote answer with the cached session, and what logout does.
use vstd::prelude::*;
use vstd::string::StringExecFns;
use crate::model::{AuthView, UserView, SessionRecord, AuthStatusResult, TransportError, anonymous};
use crate::payload::payload_of;
use crate::codec::{SessionKey, signed_cookie_of, encode_session};

verus! {

/// Process-wide settings: the remote service's base URL and the cookie key.
pub struct GatewayConfig {
    pub auth_service_url: String,
    pub key: SessionKey,
}

impl GatewayConfig {
    pub open spec fn wf(&self) -> bool {
        self.key.wf()
    }

    pub fn new(auth_service_url: String, key: SessionKey) -> (r: GatewayConfig)
        ensures
            r.auth_service_url@ == auth_service_url@,
            r.key == key,
    {
        GatewayConfig { auth_service_url, key }
    }

    /// Where a browser is sent to sign in.
    pub fn login_target(&self) -> (r: String)
        ensures
            r@ == self.auth_service_url@ + "/auth/login"@,
    {
        let mut r = self.auth_service_url.as_str().to_owned();
        r.append("/auth/login");
        r
    }

    /// The remote status endpoint, addressed by a session id where one is known.
    pub fn status_url(&self, session_id: Option<&str>) -> (r: String)
        ensures
            session_id is None ==> r@ == self.auth_service_url@ + "/auth/status"@,
            session_id matches Some(sid) ==> r@ == self.auth_service_url@ + "/auth/status"@ + "/"@ + sid@,
    {
        let mut r = self.auth_service_url.as_str().to_owned();
        r.append("/auth/status");
        if let Some(sid) = session_id {
            r.append("/");
            r.append(sid);
        }
        r
    }

    /// The remote endpoint told of a logout.
    pub fn logout_url(&self) -> (r: String)
        ensures
            r@ == self.auth_service_url@ + "/auth/logout"@,
    {
        let mut r = self.auth_service_url.as_str().to_owned();
        r.append("/auth/logout");
        r
    }

    /// The remote endpoint probed once at startup.
    pub fn health_url(&self) -> (r: String)
        ensures
            r@ == self.auth_service_url@ + "/health"@,
    {
        let mut r = self.auth_service_url.as_str().to_owned();
        r.append("/health");
        r
    }
}

/// The remote answer as the contracts see it.
pub open spec fn outcome_view(o: Result<AuthStatusResult, TransportError>) -> Result<AuthView, TransportError> {
    match o {
        Ok(s) => Ok(s@),
        Err(e) => Err(e),
    }
}

/// The remote answer from a response: a status other than success is a
/// confident "not signed in"; a successful response whose body could not be
/// read is a transport failure.
pub fn interpret_status_reply(success: bool, body: Option<AuthStatusResult>) -> (r: Result<
    AuthStatusResult,
    TransportError,
>)
    ensures
        !success ==> outcome_view(r) == Ok::<AuthView, TransportError>(anonymous()),
        success && body is None ==> r == Err::<AuthStatusResult, TransportError>(TransportError::MalformedBody),
        success && body is Some ==> outcome_view(r) == Ok::<AuthView, TransportError>(body->0@),
{
    if !success {
        Ok(AuthStatusResult::anonymous())
    } else {
        match body {
            Some(b) => Ok(b),
            None => Err(TransportError::MalformedBody),
        }
    }
}

/// The answer of a status check, from the cached record and the remote answer.
/// A remote answer wins: a confirmed user is returned, anything else is "not
/// signed in". Without a remote answer a cached signed-in user is returned.
pub open spec fn reconciled_status(cached: AuthView, remote: Result<AuthView, TransportError>) -> AuthView {
    match remote {
        Ok(s) => if s.authenticated && s.user is Some {
            AuthView { authenticated: true, user: s.user }
        } else {
            anonymous()
        },
        Err(_) => if cached.authenticated && cached.user is Some {
            AuthView { authenticated: true, user: cached.user }
        } else {
            anonymous()
        },
    }
}

/// The record kept after a status check. A remote answer replaces the cache
/// outright, so a remote "not signed in" clears a stale signed-in cookie.
/// Without a remote answer the cache is kept as it was.
pub open spec fn reconciled_record(cached: AuthView, remote: Result<AuthView, TransportError>) -> AuthView {
    match remote {
        Ok(_) => reconciled_status(cached, remote),
        Err(_) => cached,
    }
}

/// Merges the remote answer with the cached record, updates the record, and
/// returns the answer for the caller. Every remote outcome gives an answer.
pub fn reconcile(session: &mut SessionRecord, remote: &Result<AuthStatusResult, TransportError>) -> (r: AuthStatusResult)
    ensures
        r@ == reconciled_status(old(session)@, outcome_view(*remote)),
        final(session)@ == reconciled_record(old(session)@, outcome_view(*remote)),
        r@.wf(),
{
    match remote {
        Ok(s) => {
            let answer = match &s.user {
                Some(u) if s.authenticated => AuthStatusResult::signed_in(u.duplicate()),
                _ => AuthStatusResult::anonymous(),
            };
            *session = answer.to_record();
            answer
        },
        Err(_) => {
            match &session.user {
                Some(u) if session.authenticated => AuthStatusResult::signed_in(u.duplicate()),
                _ => AuthStatusResult::anonymous(),
            }
        },
    }
}

/// What a status request answers: the result and the cookie to send back.
pub struct StatusReply {
    pub status: AuthStatusResult,
    pub cookie: String,
}

/// Handles a status request: reconciles, then writes the record back.
pub fn status_reply(cfg: &GatewayConfig, session: SessionRecord, remote: &Result<AuthStatusResult, TransportError>) -> (r: StatusReply)
    requires
        cfg.wf(),
    ensures
        r.status@ == reconciled_status(session@, outcome_view(*remote)),
        r.cookie@ == signed_cookie_of(cfg.key.bytes@, payload_of(reconciled_record(session@, outcome_view(*remote)))),
{
    let mut s = session;
    let status = reconcile(&mut s, remote);
    let cookie = encode_session(&cfg.key, &s);
    StatusReply { status, cookie }
}

/// Starts a logout: clears the record before anything else and returns the
/// remote endpoint to notify.
pub fn start_logout(cfg: &GatewayConfig, session: &mut SessionRecord) -> (r: String)
    ensures
        final(session)@ == anonymous(),
        r@ == cfg.auth_service_url@ + "/auth/logout"@,
{
    *session = SessionRecord::empty();
    cfg.logout_url()
}

/// What a logout answers: the cookie to send back and where to redirect.
pub struct LogoutReply {
    pub cookie: String,
    pub location: String,
}

/// The cookie of a cleared session.
pub open spec fn cleared_cookie(key: Seq<u8>) -> Seq<char> {
    signed_cookie_of(key, payload_of(anonymous()))
}

/// Ends a logout whatever the remote notification gave: the cleared record
/// goes back in the cookie and the browser returns to the site's root.
pub fn finish_logout(cfg: &GatewayConfig, session: &SessionRecord, notified: &Result<(), TransportError>) -> (r: LogoutReply)
    requires
        cfg.wf(),
    ensures
        r.cookie@ == signed_cookie_of(cfg.key.bytes@, payload_of(session@)),
        session@ == anonymous() ==> r.cookie@ == cleared_cookie(cfg.key.bytes@),
        r.location@ == "/"@,
{
    let cookie = encode_session(&cfg.key, session);
    LogoutReply { cookie, location: "/".to_owned() }
}

/// Every status answer is well formed: signed in exactly when a user is present.
pub proof fn lemma_status_well_formed(cached: AuthView, remote: Result<AuthView, TransportError>)
    ensures
        reconciled_status(cached, remote).wf(),
        reconciled_record(cached, remote).wf() || remote is Err,
{
}

/// With the remote service unreachable, a cached signed-in user is returned as
/// it is, and an empty cache gives "not signed in".
pub proof fn lemma_fallback(u: UserView, e: TransportError)
    ensures
        reconciled_status(AuthView { authenticated: true, user: Some(u) }, Err(e))
            == (AuthView { authenticated: true, user: Some(u) }),
        reconciled_status(anonymous(), Err(e)) == anonymous(),
{
}

/// A remote confirmation of a user is returned and replaces the cache,
/// whatever the cache held before.
pub proof fn lemma_authoritative_overwrite(cached: AuthView, u: UserView)
    ensures
        reconciled_status(cached, Ok(AuthView { authenticated: true, user: Some(u) }))
            == (AuthView { authenticated: true, user: Some(u) }),
        reconciled_record(cached, Ok(AuthView { authenticated: true, user: Some(u) }))
            == (AuthView { authenticated: true, user: Some(u) }),
{
}

} // verus!
