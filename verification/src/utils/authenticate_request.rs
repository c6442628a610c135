//! Who is asking: the identity behind the `Authorization` header of a
//! request.
//!
//! Nothing is looked up. The identity is the one that the token carries, so
//! an account that has since been renamed or removed is still accepted until
//! its token expires.

use crate::errors::{AuthenticateError, Error};
use crate::utils::text::str_eq;
use crate::utils::token::{decode_at, unix_now, verified_at, TokenUser, TokenUserView};
use vstd::prelude::*;
use vstd::string::StrSliceExecFns;

verus! {

/// The scheme that a header must begin with, blank included.
pub const BEARER_PREFIX: &'static str = "Bearer ";

/// The token in a header of the shape `Bearer <token>`: the header begins
/// with the scheme, spelled exactly so, followed by one blank, and the token
/// is everything after it and is not empty.
pub open spec fn bearer_of(header: Seq<char>) -> Option<Seq<char>> {
    if header.len() > 7 && header.subrange(0, 7) == "Bearer "@ {
        Some(header.subrange(7, header.len() as int))
    } else {
        None
    }
}

/// The identity that a request with the given header is served under at the
/// instant `now`, if any.
pub open spec fn identity_at(header: Option<Seq<char>>, secret: Seq<char>, now: u64) -> Option<
    TokenUserView,
> {
    match header {
        Some(header) => match bearer_of(header) {
            Some(token) => match verified_at(token, secret, now) {
                Some(claims) => Some(claims.user),
                None => None,
            },
            None => None,
        },
        None => None,
    }
}

/// Takes the token out of a header of the shape `Bearer <token>`.
pub fn bearer_token(header: &str) -> (token: Option<&str>)
    ensures
        match bearer_of(header@) {
            Some(expected) => token matches Some(found) && found@ == expected,
            None => token is None,
        },
{
    let length = header.unicode_len();
    if length <= 7 {
        return None;
    }
    let scheme = header.substring_char(0, 7);
    if !str_eq(scheme, BEARER_PREFIX) {
        return None;
    }
    Some(header.substring_char(7, length))
}

/// The text of a header, where there is one.
pub open spec fn header_text(header: Option<&str>) -> Option<Seq<char>> {
    match header {
        Some(header) => Some(header@),
        None => None,
    }
}

/// Whether `r` is the outcome owed for `identity`: that identity where there
/// is one, the refusal of the token where there is none.
pub open spec fn serves(r: Result<TokenUser, Error>, identity: Option<TokenUserView>) -> bool {
    match identity {
        Some(identity) => r matches Ok(user) && user@ == identity,
        None => r matches Err(Error::Authenticate(AuthenticateError::InvalidToken)),
    }
}

/// Turns the `Authorization` header of a request into the identity it
/// proves at the instant `now`. A header that is absent or not of the shape
/// `Bearer <token>`, and a token that does not verify, all end in the same
/// refusal.
pub fn authenticate_at(header: Option<&str>, secret: &str, now: u64) -> (r: Result<TokenUser, Error>)
    ensures
        serves(r, identity_at(header_text(header), secret@, now)),
{
    match header {
        Some(header) => match bearer_token(header) {
            Some(token) => match decode_at(token, secret, now) {
                Ok(claims) => Ok(claims.user),
                Err(error) => Err(error),
            },
            None => Err(Error::Authenticate(AuthenticateError::InvalidToken)),
        },
        None => Err(Error::Authenticate(AuthenticateError::InvalidToken)),
    }
}

/// Turns the `Authorization` header of a request into the identity it
/// proves at the instant that the system clock shows.
pub fn authenticate(header: Option<&str>, secret: &str) -> (r: Result<TokenUser, Error>)
    ensures
        exists|now: u64| serves(r, #[trigger] identity_at(header_text(header), secret@, now)),
{
    authenticate_at(header, secret, unix_now())
}

} // verus!
