use vstd::prelude::*;

verus! {

/// What the contracts see of a user: the three identifying strings.
pub struct UserView {
    pub id: Seq<char>,
    pub name: Seq<char>,
    pub email: Seq<char>,
}

/// What the contracts see of a session record or of a status result.
pub struct AuthView {
    pub authenticated: bool,
    pub user: Option<UserView>,
}

impl AuthView {
    /// Authenticated exactly when a user is present.
    pub open spec fn wf(self) -> bool {
        self.authenticated == self.user is Some
    }
}

/// The state with nobody signed in.
pub open spec fn anonymous() -> AuthView {
    AuthView { authenticated: false, user: None }
}

/// A user as reported by the remote authentication service.
#[derive(Clone, Debug, PartialEq, Eq)]
pub struct UserInfo {
    pub id: String,
    pub name: String,
    pub email: String,
}

impl View for UserInfo {
    type V = UserView;

    open spec fn view(&self) -> UserView {
        UserView { id: self.id@, name: self.name@, email: self.email@ }
    }
}

impl UserInfo {
    pub fn new(id: String, name: String, email: String) -> (r: UserInfo)
        ensures
            r@ == (UserView { id: id@, name: name@, email: email@ }),
    {
        UserInfo { id, name, email }
    }

    /// A copy whose strings equal this one's.
    pub fn duplicate(&self) -> (r: UserInfo)
        ensures
            r@ == self@,
    {
        UserInfo { id: self.id.clone(), name: self.name.clone(), email: self.email.clone() }
    }
}

pub open spec fn user_view_opt(u: Option<UserInfo>) -> Option<UserView> {
    match u {
        Some(x) => Some(x@),
        None => None,
    }
}

/// The session state kept in the client's cookie.
#[derive(Clone, Debug, PartialEq, Eq)]
pub struct SessionRecord {
    pub authenticated: bool,
    pub user: Option<UserInfo>,
}

impl View for SessionRecord {
    type V = AuthView;

    open spec fn view(&self) -> AuthView {
        AuthView { authenticated: self.authenticated, user: user_view_opt(self.user) }
    }
}

/// The answer handed to a caller of the status check.
#[derive(Clone, Debug, PartialEq, Eq)]
pub struct AuthStatusResult {
    pub authenticated: bool,
    pub user: Option<UserInfo>,
}

impl View for AuthStatusResult {
    type V = AuthView;

    open spec fn view(&self) -> AuthView {
        AuthView { authenticated: self.authenticated, user: user_view_opt(self.user) }
    }
}

fn duplicate_user_opt(u: &Option<UserInfo>) -> (r: Option<UserInfo>)
    ensures
        user_view_opt(r) == user_view_opt(*u),
{
    match u {
        Some(x) => Some(x.duplicate()),
        None => None,
    }
}

impl SessionRecord {
    /// The record of a client that is not signed in.
    pub fn empty() -> (r: SessionRecord)
        ensures
            r@ == anonymous(),
    {
        SessionRecord { authenticated: false, user: None }
    }

    /// The record of a signed-in user.
    pub fn signed_in(user: UserInfo) -> (r: SessionRecord)
        ensures
            r@ == (AuthView { authenticated: true, user: Some(user@) }),
    {
        SessionRecord { authenticated: true, user: Some(user) }
    }

    /// Whether the record keeps its invariant.
    pub fn is_well_formed(&self) -> (r: bool)
        ensures
            r == self@.wf(),
    {
        self.authenticated == self.user.is_some()
    }

    /// The status result that this record stands for.
    pub fn to_status(&self) -> (r: AuthStatusResult)
        ensures
            r@ == self@,
    {
        AuthStatusResult { authenticated: self.authenticated, user: duplicate_user_opt(&self.user) }
    }
}

impl AuthStatusResult {
    /// The answer for a caller who is not signed in.
    pub fn anonymous() -> (r: AuthStatusResult)
        ensures
            r@ == anonymous(),
    {
        AuthStatusResult { authenticated: false, user: None }
    }

    /// A confirmed signed-in user.
    pub fn signed_in(user: UserInfo) -> (r: AuthStatusResult)
        ensures
            r@ == (AuthView { authenticated: true, user: Some(user@) }),
    {
        AuthStatusResult { authenticated: true, user: Some(user) }
    }

    /// The session record that caches this result.
    pub fn to_record(&self) -> (r: SessionRecord)
        ensures
            r@ == self@,
    {
        SessionRecord { authenticated: self.authenticated, user: duplicate_user_opt(&self.user) }
    }
}

/// A failure to obtain an answer from the remote authentication service.
#[derive(Clone, Copy, Debug, PartialEq, Eq)]
pub enum TransportError {
    /// The service could not be reached or did not answer in time.
    Unreachable,
    /// The service answered with a body that could not be read.
    MalformedBody,
}

} // verus!
