//! The per-user language-model provider registry's edge rules: the wire
//! protocol a new provider defaults to, whose catalog a change refreshes,
//! and how failures are answered.

use vstd::prelude::*;

use crate::identity::CurrentUser;
use crate::text::copy_str;

verus! {

/// The wire protocol a provider speaks when none is given.
pub fn default_wire() -> (r: String)
    ensures
        r@ == "anthropic"@,
{
    copy_str("anthropic")
}

/// The owner whose provider catalog a change affects: the caller's own for
/// a personal row, none (every catalog) for a global one.
pub fn provider_owner(user: &CurrentUser, is_global: bool) -> (r: Option<String>)
    ensures
        is_global ==> r is None,
        !is_global ==> (r matches Some(o) && o@ == user.id@),
{
    if is_global {
        None
    } else {
        Some(copy_str(user.id.as_str()))
    }
}

/// Why a provider-registry operation failed.
pub enum ProviderStoreError {
    Forbidden,
    NotFound,
    /// A storage failure (never shown to clients).
    Db(String),
}

impl ProviderStoreError {
    /// The status and message the failure is answered with.
    pub fn answer(&self) -> (r: (u16, String))
        ensures
            match *self {
                ProviderStoreError::Forbidden => r.0 == 403 && r.1@ == "not permitted"@,
                ProviderStoreError::NotFound => r.0 == 404 && r.1@ == "provider not found"@,
                ProviderStoreError::Db(_) => r.0 == 500 && r.1@ == "internal error"@,
            },
    {
        match self {
            ProviderStoreError::Forbidden => (403, copy_str("not permitted")),
            ProviderStoreError::NotFound => (404, copy_str("provider not found")),
            ProviderStoreError::Db(_) => (500, copy_str("internal error")),
        }
    }
}

} // verus!
