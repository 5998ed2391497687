//! Who is calling, and what they may touch: the resolved caller, how a
//! request's credential turns into one, and the ownership guards every study
//! and admin operation applies.

use vstd::prelude::*;

use crate::text::str_eq;

verus! {

/// The resolved caller of a request.
pub struct CurrentUser {
    pub id: String,
    pub is_admin: bool,
    /// The anonymous public identity (no credential presented).
    pub public: bool,
    /// A read-only credential: no mutating tool may run.
    pub read_only: bool,
    /// A credential limited to global (`owner_id IS NULL`) rows.
    pub global_only: bool,
}

impl CurrentUser {
    /// The anonymous public caller: no identity, no privilege; the `public`
    /// flag alone decides what it may read and call.
    pub fn anonymous() -> (r: CurrentUser)
        ensures
            r.id@ == Seq::<char>::empty(),
            !r.is_admin,
            r.public,
            !r.read_only,
            !r.global_only,
    {
        CurrentUser { id: String::new(), is_admin: false, public: true, read_only: false, global_only: false }
    }
}

/// Why an identity check failed.
#[derive(PartialEq, Eq, Structural, Debug, Clone, Copy)]
pub enum AuthError {
    /// No (valid) credential.
    Unauthorized,
    /// Authenticated, but not permitted.
    Forbidden,
}

/// The two run modes: single-user local, or multi-user server.
#[derive(PartialEq, Eq, Structural, Debug, Clone, Copy)]
pub enum Mode {
    Local,
    Server,
}

/// How a request's caller is to be resolved.
pub enum Caller {
    /// Local mode: always the implicit admin.
    LocalAdmin,
    /// Server mode with no credential on a public-readable route.
    Anonymous,
    /// Server mode with a credential: authenticate this token.
    Token(String),
}

/// Caller resolution for a route that requires a login: local mode is the
/// implicit admin; server mode needs a credential, else `Unauthorized`.
pub fn current_user_caller(mode: Mode, token: Option<String>) -> (r: Result<Caller, AuthError>)
    ensures
        mode == Mode::Local ==> r matches Ok(Caller::LocalAdmin),
        mode == Mode::Server && token is None ==> r == Err::<Caller, AuthError>(
            AuthError::Unauthorized,
        ),
        mode == Mode::Server && token is Some ==> (r matches Ok(Caller::Token(t)) && t@
            == token->0@),
{
    match mode {
        Mode::Local => Ok(Caller::LocalAdmin),
        Mode::Server => match token {
            Some(t) => Ok(Caller::Token(t)),
            None => Err(AuthError::Unauthorized),
        },
    }
}

/// Caller resolution for a public-readable route: like
/// [`current_user_caller`], except that a server-mode request with no
/// credential is the anonymous public caller instead of `Unauthorized`. A
/// credential that is present is still authenticated (and may still fail).
pub fn public_user_caller(mode: Mode, token: Option<String>) -> (r: Caller)
    ensures
        mode == Mode::Local ==> r is LocalAdmin,
        mode == Mode::Server && token is None ==> r is Anonymous,
        mode == Mode::Server && token is Some ==> (r matches Caller::Token(t) && t@
            == token->0@),
{
    match mode {
        Mode::Local => Caller::LocalAdmin,
        Mode::Server => match token {
            Some(t) => Caller::Token(t),
            None => Caller::Anonymous,
        },
    }
}

/// Admin-only operations: `Forbidden` unless the caller is an admin.
pub fn assert_admin(user: &CurrentUser) -> (r: Result<(), AuthError>)
    ensures
        r is Ok <==> user.is_admin,
        r is Err ==> r == Err::<(), AuthError>(AuthError::Forbidden),
{
    if user.is_admin {
        Ok(())
    } else {
        Err(AuthError::Forbidden)
    }
}

/// Who may write a row owned by `owner` (`None` = a global row).
pub open spec fn can_write(owner: Option<Seq<char>>, user: CurrentUser) -> bool {
    match owner {
        Some(o) => o == user.id@,
        None => user.is_admin,
    }
}

/// The write guard: the caller must own the row, or be an admin for a global
/// (owner-less) one.
pub fn assert_can_write(owner: Option<&str>, user: &CurrentUser) -> (r: Result<(), AuthError>)
    ensures
        r is Ok <==> can_write(
            match owner {
                Some(o) => Some(o@),
                None => None,
            },
            *user,
        ),
        r is Err ==> r == Err::<(), AuthError>(AuthError::Forbidden),
{
    let ok = match owner {
        Some(o) => str_eq(o, user.id.as_str()),
        None => user.is_admin,
    };
    if ok {
        Ok(())
    } else {
        Err(AuthError::Forbidden)
    }
}

} // verus!
