//! Messages exchanged between a connection session and the coordinators, and
//! the frames that carry player requests over the socket.
//!
//! The request structs carry player ids in their wire form (UUID strings);
//! the coordinators parse them and reject a request whose id is not a UUID.

use vstd::prelude::*;
use crate::ids::{ConnectionId, PlayerId};
use crate::user_state::{UserEvent, UserState};

verus! {

/// One game-state snapshot reported by a client, retained in that player's
/// history and intended for rebroadcast to lobby peers.
#[derive(Clone, Debug)]
pub struct GameState {
    /// X position of the player in the game.
    pub position_x: usize,
    /// Y position of the player in the game.
    pub position_y: usize,
    /// The player the snapshot belongs to.
    pub player_id: PlayerId,
    /// Timestamp of the game state update, as the client sent it.
    pub timestamp: String,
}

impl GameState {
    /// The player the snapshot belongs to.
    pub fn player_id(&self) -> (r: PlayerId)
        ensures
            r == self.player_id,
    {
        self.player_id
    }

    /// The player the snapshot belongs to, as an owned value.
    pub fn into_player_id(&self) -> (r: PlayerId)
        ensures
            r == self.player_id,
    {
        self.player_id
    }
}

#[derive(Clone, Debug)]
pub struct CreateLobbyRequest {
    pub lobby_name: String,
    pub player_id: String,
}

#[derive(Clone, Debug)]
pub struct JoinLobbyRequest {
    pub lobby_name: String,
    pub player_id: String,
}

#[derive(Clone, Debug)]
pub struct LeaveLobbyRequest {
    pub lobby_name: String,
    pub player_id: String,
}

/// A plain text frame relayed to a peer's socket.
pub struct Message(pub String);

/// A chat message bound for one lobby.
pub struct ClientMessage {
    pub id: usize,
    pub msg: String,
    pub lobby: String,
}

/// Join a lobby by name, creating it when absent.
pub struct Join {
    pub id: usize,
    pub name: String,
}

/// Query: names of the lobbies that currently have members.
pub struct ListLobbies;

/// Query: the members of one lobby.
#[derive(Debug)]
pub struct PlayersInLobby {
    pub lobby_name: String,
}

/// Query: the session state of one connection.
pub struct GetState {
    pub connection_id: ConnectionId,
}

/// Overwrite the session state of a registered connection.
pub struct SetState {
    pub connection_id: ConnectionId,
    pub state: UserState,
}

/// Overwrite the session state of a registered connection.
pub struct UpdateState {
    pub connection_id: ConnectionId,
    pub state: UserState,
}

/// Remove a connection's entry and its player's history.
pub struct DeleteState {
    pub connection_id: ConnectionId,
}

/// Best-effort cleanup on socket teardown; never fails.
#[derive(Debug)]
pub struct Disconnect {
    pub connection_id: ConnectionId,
}

/// Register a fresh connection as authenticated for a player.
pub struct RegisterWebSocket {
    pub connection_id: ConnectionId,
    pub user_id: PlayerId,
}

/// Ask whether the player is already represented by some connection; if so,
/// migrate that session to the asking connection.
pub struct CheckExistingConnection {
    pub connection_id: ConnectionId,
    pub user_id: PlayerId,
}

/// Apply one state-machine event to a connection's session.
#[derive(Debug)]
pub struct TransitionEvent {
    pub connection_id: ConnectionId,
    pub event: UserEvent,
}

/// An authentication frame carrying a bearer token.
#[derive(Clone, Debug)]
pub struct WebsocketAuthJwt {
    pub jwt: String,
}

/// A discriminated inbound frame, decoded from the socket's text payload.
#[derive(Debug)]
pub enum WebSocketMessage {
    Auth(WebsocketAuthJwt),
    GameState(GameState),
    CreateLobby(CreateLobbyRequest),
    JoinLobby(JoinLobbyRequest),
    LeaveLobby(LeaveLobbyRequest),
}

/// Server-to-client payload telling the client which state to enforce.
#[derive(Clone, Copy, PartialEq, Eq, Structural, Debug)]
pub struct SynchronizeState {
    pub state: UserState,
}

impl From<UserState> for SynchronizeState {
    fn from(user_state: UserState) -> (r: SynchronizeState) {
        SynchronizeState { state: user_state }
    }
}

impl vstd::std_specs::convert::FromSpecImpl<UserState> for SynchronizeState {
    open spec fn obeys_from_spec() -> bool {
        true
    }

    open spec fn from_spec(user_state: UserState) -> SynchronizeState {
        SynchronizeState { state: user_state }
    }
}

} // verus!
