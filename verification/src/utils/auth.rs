//! Claims, bearer tokens and the ways a request is turned away.

use vstd::prelude::*;
use vstd::string::StrSliceExecFns;
use jsonwebtoken::errors::Error;
use jsonwebtoken::errors::ErrorKind;

verus! {

/// The error of the token library; its inside is not visible here.
#[verifier::external_type_specification]
#[verifier::external_body]
pub struct ExTokenError(Error);

/// `jsonwebtoken::errors::Error::from(ErrorKind::InvalidToken)`: the error
/// that stands for a token without a usable claim. Nothing is claimed of it.
#[verifier::external_body]
pub(crate) fn invalid_token() -> (error: Error) {
    Error::from(ErrorKind::InvalidToken)
}

/// What a verified token says about its bearer.
#[derive(Debug)]
pub struct Claim {
    pub sub: String,
    pub username: String,
    /// Present on tokens for the streaming side.
    pub role: Option<String>,
    /// Present on tokens for the data side.
    pub permissionlevel: Option<String>,
    pub exp: usize,
}

/// Why a request is turned away before anything is created for it.
#[derive(Clone, Copy, Debug, PartialEq, Eq, Structural)]
pub enum Rejection {
    /// The request carries no authorization header.
    MissingHeader,
    /// The header is not readable text.
    InvalidHeader,
    /// The header does not start with the bearer scheme.
    InvalidAuthorizationHeader,
    /// The token did not verify.
    InvalidToken,
    /// The token verified, but grants nothing here.
    PermissionDenied,
}

/// The authorization header of a request, as far as it could be read.
#[derive(Debug, PartialEq, Eq)]
pub enum AuthorizationHeader {
    /// There is no such header.
    Missing,
    /// There is one, but it is not readable text.
    Unreadable,
    /// The header's text.
    Text(String),
}

/// The status a rejection is answered with: 403 where a verified token
/// grants nothing, 401 everywhere else.
pub open spec fn status_of(rejection: Rejection) -> u16 {
    match rejection {
        Rejection::PermissionDenied => 403,
        _ => 401,
    }
}

/// The scheme a bearer credential starts with, blank included.
pub open spec fn bearer_prefix() -> Seq<char> {
    seq!['B', 'e', 'a', 'r', 'e', 'r', ' ']
}

/// The token inside a header's text: what follows the bearer scheme, if the
/// text starts with it.
pub open spec fn token_in(text: Seq<char>) -> Option<Seq<char>> {
    if bearer_prefix().is_prefix_of(text) {
        Some(text.skip(7))
    } else {
        None
    }
}

impl Claim {
    /// The claim of a token issued at `now`, in seconds, for `time` seconds:
    /// it expires when both have passed.
    pub fn issue(
        sub: String,
        username: String,
        role: Option<String>,
        permissionlevel: Option<String>,
        now: usize,
        time: usize,
    ) -> (claim: Claim)
        requires
            now + time <= usize::MAX,
        ensures
            claim.sub == sub,
            claim.username == username,
            claim.role == role,
            claim.permissionlevel == permissionlevel,
            claim.exp == now + time,
    {
        Claim { sub, username, role, permissionlevel, exp: now + time }
    }
}

impl Rejection {
    /// The status this rejection is answered with.
    pub fn status(&self) -> (code: u16)
        ensures
            code == status_of(*self),
    {
        match self {
            Rejection::PermissionDenied => 403,
            _ => 401,
        }
    }

    /// The words this rejection is answered with.
    pub fn message(&self) -> (words: &'static str)
        ensures
            words@ == match *self {
                Rejection::MissingHeader => "Missing Authorization header"@,
                Rejection::InvalidHeader => "Invalid header"@,
                Rejection::InvalidAuthorizationHeader => "Invalid Authorization header"@,
                Rejection::InvalidToken => "Invalid token"@,
                Rejection::PermissionDenied => "Permission denied"@,
            },
    {
        match self {
            Rejection::MissingHeader => "Missing Authorization header",
            Rejection::InvalidHeader => "Invalid header",
            Rejection::InvalidAuthorizationHeader => "Invalid Authorization header",
            Rejection::InvalidToken => "Invalid token",
            Rejection::PermissionDenied => "Permission denied",
        }
    }
}

/// Whether `name` reads exactly as `expected`.
pub(crate) fn is_named(name: &String, expected: &str) -> (same: bool)
    ensures
        same == (name@ == expected@),
{
    let expected = expected.to_owned();
    *name == expected
}

/// Whether `text` starts with the bearer scheme.
fn starts_with_bearer(text: &str) -> (starts: bool)
    ensures
        starts == bearer_prefix().is_prefix_of(text@),
{
    let scheme = "Bearer ";
    proof {
        reveal_strlit("Bearer ");
        assert(scheme@ =~= bearer_prefix());
    }
    if text.unicode_len() < 7 {
        return false;
    }
    let mut at: usize = 0;
    while at < 7
        invariant
            at <= 7,
            text@.len() >= 7,
            scheme@ == bearer_prefix(),
            forall|i: int| 0 <= i < at ==> text@[i] == bearer_prefix()[i],
        decreases 7 - at,
    {
        if text.get_char(at) != scheme.get_char(at) {
            assert(bearer_prefix()[at as int] != text@.subrange(0, 7)[at as int]);
            return false;
        }
        at = at + 1;
    }
    assert(bearer_prefix() =~= text@.subrange(0, 7));
    true
}

/// Takes the bearer token out of an authorization header.
///
/// A missing header, an unreadable one and one without the bearer scheme
/// are each turned away with a rejection of their own; anything after the
/// scheme, the empty text included, is the token.
pub fn bearer_token(header: AuthorizationHeader) -> (token: Result<String, Rejection>)
    ensures
        match header {
            AuthorizationHeader::Missing => token == Err::<String, Rejection>(
                Rejection::MissingHeader,
            ),
            AuthorizationHeader::Unreadable => token == Err::<String, Rejection>(
                Rejection::InvalidHeader,
            ),
            AuthorizationHeader::Text(text) => match token_in(text@) {
                Some(inner) => token matches Ok(found) && found@ == inner,
                None => token == Err::<String, Rejection>(Rejection::InvalidAuthorizationHeader),
            },
        },
{
    match header {
        AuthorizationHeader::Missing => Err(Rejection::MissingHeader),
        AuthorizationHeader::Unreadable => Err(Rejection::InvalidHeader),
        AuthorizationHeader::Text(text) => {
            let text = text.as_str();
            if starts_with_bearer(text) {
                let inner = text.substring_char(7, text.unicode_len());
                assert(inner@ =~= text@.skip(7));
                Ok(inner.to_owned())
            } else {
                Err(Rejection::InvalidAuthorizationHeader)
            }
        },
    }
}

} // verus!
