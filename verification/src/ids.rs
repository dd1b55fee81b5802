//! Identifier types shared by the coordinators.
//!
//! Every identifier is a 128-bit value (the numeric form of a UUID); the
//! string form used on the wire is converted at the boundary.

use vstd::prelude::*;

verus! {

/// Stable identity of a human player; it survives reconnects.
#[derive(Clone, Copy, PartialEq, Eq, Structural, Debug, Hash)]
pub struct PlayerId(pub u128);

/// Identity of one physical connection; minted fresh per connection, never reused.
#[derive(Clone, Copy, PartialEq, Eq, Structural, Debug, Hash)]
pub struct ConnectionId(pub u128);

/// Identity of a lobby as carried inside a session state.
#[derive(Clone, Copy, PartialEq, Eq, Structural, Debug, Hash)]
pub struct LobbyId(pub u128);

/// Identity of a running game session.
#[derive(Clone, Copy, PartialEq, Eq, Structural, Debug, Hash)]
pub struct GameId(pub u128);

/// The numeric value that `uuid` reads out of a string of hexadecimal digits
/// with optional hyphens, or `None` where the string is not a UUID.
pub uninterp spec fn parsed_uuid(s: Seq<char>) -> Option<u128>;

/// Relies on `uuid::Uuid::parse_str` and `uuid::Uuid::as_u128`: the parse
/// result depends on the characters of the input alone.
#[verifier::external_body]
pub(crate) fn parse_uuid(s: &str) -> (r: Option<u128>)
    ensures
        r == parsed_uuid(s@),
{
    match uuid::Uuid::parse_str(s) {
        Ok(u) => Some(u.as_u128()),
        Err(_) => None,
    }
}

} // verus!
