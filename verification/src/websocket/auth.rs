//! From a verified claim to the role of a streaming connection.

use vstd::prelude::*;
use jsonwebtoken::errors::Error;
use crate::utils::auth::invalid_token;
use crate::utils::auth::is_named;
use crate::utils::auth::Claim;
use crate::utils::auth::Rejection;
use crate::websocket::structures::ClientRole;
use crate::websocket::structures::Role;

verus! {

/// The role that goes by `name`, if any does.
pub open spec fn role_named(name: Seq<char>) -> Option<ClientRole> {
    if name == "receiver"@ {
        Some(ClientRole::Receiver)
    } else if name == "sender"@ {
        Some(ClientRole::Sender)
    } else {
        None
    }
}

/// The role a claim asks for, if it names one that exists.
pub open spec fn claimed_role(claim: Claim) -> Option<ClientRole> {
    match claim.role {
        Some(name) => role_named(name@),
        None => None,
    }
}

/// What credential resolution answers once the token has been checked:
/// a token that did not verify is an invalid token, a verified claim
/// without a known role is a denied permission, and any other claim gives
/// its role.
pub open spec fn resolution_of(verified: Option<Claim>) -> Result<ClientRole, Rejection> {
    match verified {
        None => Err(Rejection::InvalidToken),
        Some(claim) => match claimed_role(claim) {
            Some(role) => Ok(role),
            None => Err(Rejection::PermissionDenied),
        },
    }
}

/// Grants the role a claim names: `receiver` subscribes, `sender` publishes.
/// A claim that names no role, or another one, is an invalid token.
pub fn auth_access(claim: Claim) -> (access: Result<ClientRole, Error>)
    ensures
        match claimed_role(claim) {
            Some(role) => access matches Ok(granted) && granted == role,
            None => access is Err,
        },
{
    if let Some(role) = claim.role {
        if is_named(&role, "receiver") {
            Ok(ClientRole::Receiver)
        } else if is_named(&role, "sender") {
            Ok(ClientRole::Sender)
        } else {
            Err(invalid_token())
        }
    } else {
        Err(invalid_token())
    }
}

/// Resolves the role of a connection from what verifying its token gave:
/// the claims, or nothing where the token did not verify.
pub fn resolve_role(verified: Option<Claim>) -> (resolved: Result<Role, Rejection>)
    ensures
        match resolution_of(verified) {
            Ok(role) => resolved matches Ok(granted) && granted.0 == role,
            Err(rejection) => resolved matches Err(given) && given == rejection,
        },
{
    match verified {
        None => Err(Rejection::InvalidToken),
        Some(claim) => match auth_access(claim) {
            Ok(role) => Ok(Role(role)),
            Err(_) => Err(Rejection::PermissionDenied),
        },
    }
}

} // verus!
