//! Admin-minted service tokens: the checks a new token passes, the record
//! it is stored as (its secret shown once), its expiry, and how failures are
//! answered.

use vstd::prelude::*;

use crate::identity::{assert_admin, CurrentUser};
use crate::text::{blank, copy_str, is_blank, str_eq};

verus! {

/// The scope granting everything the owner may do.
pub open spec fn scope_full() -> Seq<char> {
    "full"@
}

/// The scope forbidding every mutating operation.
pub open spec fn scope_read_only() -> Seq<char> {
    "read_only"@
}

/// The scope limited to reading global data.
pub open spec fn scope_global_read() -> Seq<char> {
    "global_read"@
}

/// The recognised scopes.
pub open spec fn is_scope(s: Seq<char>) -> bool {
    s == scope_full() || s == scope_read_only() || s == scope_global_read()
}

/// Why a service-token operation failed.
pub enum ServiceTokenError {
    Forbidden,
    NotFound,
    InvalidInput(String),
    Db(String),
}

/// How a service-token failure is answered: status and message (a storage
/// failure's detail is never shown).
pub open spec fn token_error_answer(e: ServiceTokenError) -> (u16, Seq<char>) {
    match e {
        ServiceTokenError::Forbidden => (403, "not permitted"@),
        ServiceTokenError::NotFound => (404, "service token not found"@),
        ServiceTokenError::InvalidInput(m) => (400, m@),
        ServiceTokenError::Db(_) => (500, "internal error"@),
    }
}

impl ServiceTokenError {
    /// The status and message the failure is answered with.
    pub fn answer(&self) -> (r: (u16, String))
        ensures
            r.0 == token_error_answer(*self).0,
            r.1@ == token_error_answer(*self).1,
    {
        match self {
            ServiceTokenError::Forbidden => (403, copy_str("not permitted")),
            ServiceTokenError::NotFound => (404, copy_str("service token not found")),
            ServiceTokenError::InvalidInput(m) => (400, copy_str(m.as_str())),
            ServiceTokenError::Db(_) => (500, copy_str("internal error")),
        }
    }
}

/// A service token without its secret. Times are microseconds since the
/// Unix epoch (UTC).
pub struct ServiceTokenView {
    pub id: String,
    pub owner_id: String,
    pub is_admin: bool,
    pub label: String,
    pub scope: String,
    pub created_at: i64,
    pub expires_at: Option<i64>,
}

/// A freshly minted token: the only moment its secret is shown.
pub struct MintedServiceToken {
    pub token: String,
    pub view: ServiceTokenView,
}

/// Microseconds in a day.
pub open spec fn day_us() -> int {
    86_400_000_000
}

/// The expiry of a token minted at `now` that lives `days` days.
pub open spec fn expiry_of(now: int, days: Option<i64>) -> Option<int> {
    match days {
        Some(d) => Some(now + d * day_us()),
        None => None,
    }
}

/// Whether the expiry can be represented.
pub open spec fn expiry_fits(now: int, days: Option<i64>) -> bool {
    days matches Some(d) ==> i64::MIN <= now + d * day_us() <= i64::MAX
}

/// The checks before minting, once the caller is known to be an admin, in
/// order: a recognised scope, a non-blank label, a non-blank owner.
pub open spec fn mint_checked(
    owner_id: Seq<char>,
    label: Seq<char>,
    scope: Seq<char>,
) -> Result<(), Seq<char>> {
    if !is_scope(scope) {
        Err("scope must be one of full, read_only, global_read"@)
    } else if is_blank(label) {
        Err("label must not be empty"@)
    } else if is_blank(owner_id) {
        Err("owner_id must not be empty"@)
    } else {
        Ok(())
    }
}

/// Mints a token for `owner_id` with the fresh secret `token` and reference
/// `id` at `now`: admin only, with a recognised scope and a non-blank label
/// and owner; the token expires `expires_in_days` later when given.
pub fn mint_token(
    admin: &CurrentUser,
    owner_id: &str,
    label: &str,
    scope: &str,
    is_admin: bool,
    expires_in_days: Option<i64>,
    token: String,
    id: String,
    now: i64,
) -> (r: Result<MintedServiceToken, ServiceTokenError>)
    requires
        expiry_fits(now as int, expires_in_days),
    ensures
        !admin.is_admin ==> r matches Err(ServiceTokenError::Forbidden),
        admin.is_admin ==> match mint_checked(owner_id@, label@, scope@) {
            Err(m) => r matches Err(ServiceTokenError::InvalidInput(x)) && x@ == m,
            Ok(()) => r matches Ok(t) && t.token@ == token@ && t.view.id@ == id@
                && t.view.owner_id@ == owner_id@ && t.view.is_admin == is_admin && t.view.label@
                == label@ && t.view.scope@ == scope@ && t.view.created_at == now && match t.view.expires_at {
                Some(e) => expiry_of(now as int, expires_in_days) == Some(e as int),
                None => expires_in_days is None,
            },
        },
{
    if assert_admin(admin).is_err() {
        return Err(ServiceTokenError::Forbidden);
    }
    if !(str_eq(scope, "full") || str_eq(scope, "read_only") || str_eq(scope, "global_read")) {
        return Err(
            ServiceTokenError::InvalidInput(copy_str("scope must be one of full, read_only, global_read")),
        );
    }
    if blank(label) {
        return Err(ServiceTokenError::InvalidInput(copy_str("label must not be empty")));
    }
    if blank(owner_id) {
        return Err(ServiceTokenError::InvalidInput(copy_str("owner_id must not be empty")));
    }
    let expires_at = match expires_in_days {
        Some(d) => Some(((now as i128) + (d as i128) * 86_400_000_000i128) as i64),
        None => None,
    };
    Ok(
        MintedServiceToken {
            token,
            view: ServiceTokenView {
                id,
                owner_id: copy_str(owner_id),
                is_admin,
                label: copy_str(label),
                scope: copy_str(scope),
                created_at: now,
                expires_at,
            },
        },
    )
}

/// Listing and revoking are admin-only too; a revoke of an unknown
/// reference is `NotFound`. `found` is whether the reference names a token.
pub fn revoke_decision(admin: &CurrentUser, found: bool) -> (r: Result<(), ServiceTokenError>)
    ensures
        !admin.is_admin ==> r matches Err(ServiceTokenError::Forbidden),
        admin.is_admin && !found ==> r matches Err(ServiceTokenError::NotFound),
        admin.is_admin && found ==> r is Ok,
{
    if assert_admin(admin).is_err() {
        return Err(ServiceTokenError::Forbidden);
    }
    if !found {
        return Err(ServiceTokenError::NotFound);
    }
    Ok(())
}

} // verus!
