//! From a verified claim to a permission level on the data side.

use vstd::prelude::*;
use jsonwebtoken::errors::Error;
use crate::database::structures::Permission;
use crate::database::structures::PermissionLevel;
use crate::utils::auth::invalid_token;
use crate::utils::auth::is_named;
use crate::utils::auth::Claim;
use crate::utils::auth::Rejection;

verus! {

/// The permission level that goes by `name`, if any does.
pub open spec fn level_named(name: Seq<char>) -> Option<PermissionLevel> {
    if name == "user"@ {
        Some(PermissionLevel::User)
    } else if name == "admin"@ {
        Some(PermissionLevel::Admin)
    } else {
        None
    }
}

/// The permission level a claim asks for, if it names one that exists.
pub open spec fn claimed_level(claim: Claim) -> Option<PermissionLevel> {
    match claim.permissionlevel {
        Some(name) => level_named(name@),
        None => None,
    }
}

/// What credential resolution answers once the token has been checked:
/// a token that did not verify is an invalid token, a verified claim
/// without a known level is a denied permission, and any other claim gives
/// its level.
pub open spec fn resolution_of(verified: Option<Claim>) -> Result<PermissionLevel, Rejection> {
    match verified {
        None => Err(Rejection::InvalidToken),
        Some(claim) => match claimed_level(claim) {
            Some(level) => Ok(level),
            None => Err(Rejection::PermissionDenied),
        },
    }
}

/// Grants the permission level a claim names: `user` or `admin`.
/// A claim that names no level, or another one, is an invalid token.
pub fn auth_access(claim: Claim) -> (access: Result<PermissionLevel, Error>)
    ensures
        match claimed_level(claim) {
            Some(level) => access matches Ok(granted) && granted == level,
            None => access is Err,
        },
{
    if let Some(permissionlevel) = claim.permissionlevel {
        if is_named(&permissionlevel, "user") {
            Ok(PermissionLevel::User)
        } else if is_named(&permissionlevel, "admin") {
            Ok(PermissionLevel::Admin)
        } else {
            Err(invalid_token())
        }
    } else {
        Err(invalid_token())
    }
}

/// Resolves the permission of a request from what verifying its token gave:
/// the claims, or nothing where the token did not verify.
pub fn resolve_permission(verified: Option<Claim>) -> (resolved: Result<Permission, Rejection>)
    ensures
        match resolution_of(verified) {
            Ok(level) => resolved matches Ok(granted) && granted.0 == level,
            Err(rejection) => resolved matches Err(given) && given == rejection,
        },
{
    match verified {
        None => Err(Rejection::InvalidToken),
        Some(claim) => match auth_access(claim) {
            Ok(level) => Ok(Permission(level)),
            Err(_) => Err(Rejection::PermissionDenied),
        },
    }
}

} // verus!
