//! Who may read, and how many rows a query returns at most.

use vstd::prelude::*;
use crate::database::structures::PermissionLevel;

verus! {

/// The number of rows a query returns at most where the caller names none.
pub const DEFAULT_LIMIT: i64 = 100;

/// Whether a bearer with `permission` may query data: every known level
/// may.
pub fn may_get(permission: PermissionLevel) -> (allowed: bool)
    ensures
        allowed == (permission == PermissionLevel::Admin || permission == PermissionLevel::User),
        allowed,
{
    match permission {
        PermissionLevel::Admin => true,
        PermissionLevel::User => true,
    }
}

/// The limit a query runs with: the caller's, or the default where the
/// caller names none. The caller's limit is taken as it is.
pub fn effective_limit(limit: Option<i64>) -> (rows: i64)
    ensures
        rows == match limit {
            Some(given) => given,
            None => DEFAULT_LIMIT,
        },
{
    match limit {
        Some(given) => given,
        None => DEFAULT_LIMIT,
    }
}

} // verus!
