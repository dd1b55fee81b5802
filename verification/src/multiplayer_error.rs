//! Typed failures of the coordinator operations.
//!
//! These are returned to the protocol dispatch, which surfaces a rejection to
//! the client; none of them crashes a coordinator.

use vstd::prelude::*;
use crate::ids::ConnectionId;

verus! {

#[derive(Clone, Debug)]
pub enum ServiceError {
    /// A player id carried by a request is not a valid UUID string.
    PlayerIdIsNotUuid(String),
    /// The named lobby is not in the registry.
    LobbyDoesNotExist(String),
    /// A lobby with the requested name is already in the registry.
    LobbyAlreadyExists,
    /// The player is not a member of the named lobby.
    PlayerIsNotInLobby(String),
    /// The connection is not currently registered.
    ConnectionNotRegistered(ConnectionId),
    /// The connection has no registered state; each connection must have one.
    StateNotRegistered(ConnectionId),
}

impl ServiceError {
    /// A short description of the failure, for operator logs.
    pub fn message(&self) -> (r: &'static str)
        ensures
            (self matches ServiceError::PlayerIdIsNotUuid(_)) ==> r@
                == "player id is not a valid uuid"@,
            (self matches ServiceError::LobbyDoesNotExist(_)) ==> r@ == "lobby does not exist"@,
            (self matches ServiceError::LobbyAlreadyExists) ==> r@ == "lobby already exists"@,
            (self matches ServiceError::PlayerIsNotInLobby(_)) ==> r@
                == "player is not in this lobby"@,
            (self matches ServiceError::ConnectionNotRegistered(_)) ==> r@
                == "the connection is not currently registered"@,
            (self matches ServiceError::StateNotRegistered(_)) ==> r@
                == "the connection does not have a registered state"@,
    {
        match self {
            ServiceError::PlayerIdIsNotUuid(_) => "player id is not a valid uuid",
            ServiceError::LobbyDoesNotExist(_) => "lobby does not exist",
            ServiceError::LobbyAlreadyExists => "lobby already exists",
            ServiceError::PlayerIsNotInLobby(_) => "player is not in this lobby",
            ServiceError::ConnectionNotRegistered(_) => "the connection is not currently registered",
            ServiceError::StateNotRegistered(_) => "the connection does not have a registered state",
        }
    }
}

} // verus!
