//! Authentication claims, as decoded from a bearer token.
//!
//! Token issuance and signature verification live outside this crate; the
//! coordinators only read the already-decoded claims, and reject a claim
//! whose player id is not a UUID.

use vstd::prelude::*;
use crate::ids::{parse_uuid, parsed_uuid, PlayerId};

verus! {

#[derive(Clone, Debug)]
pub struct Claims {
    /// Subject: the account's email address.
    pub sub: String,
    /// Expiry, as a Unix timestamp.
    pub exp: i64,
    pub username: String,
    /// Level of authorization the user has.
    pub authority_level: String,
    /// The player's UUID, in string form.
    pub uuid: String,
}

#[derive(Clone, Debug)]
pub enum TokenError {
    /// The token string could not be parsed.
    ParseError,
    /// The carrying value could not be read as a string.
    ValueError,
    /// The token is malformed or its signature does not check out.
    Invalid(String),
    /// The token is expired.
    Expired,
}

impl Claims {
    /// The player this claim identifies; a claim whose uuid field is not a
    /// UUID string is rejected.
    pub fn uuid(&self) -> (r: Result<PlayerId, TokenError>)
        ensures
            parsed_uuid(self.uuid@) matches Some(v) ==> r == Ok::<PlayerId, TokenError>(
                PlayerId(v),
            ),
            parsed_uuid(self.uuid@) is None ==> r == Err::<PlayerId, TokenError>(
                TokenError::ParseError,
            ),
    {
        match parse_uuid(&self.uuid) {
            Some(v) => Ok(PlayerId(v)),
            None => Err(TokenError::ParseError),
        }
    }
}

} // verus!
