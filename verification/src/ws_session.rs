//! One live connection's session: its cached state, its heartbeat clock, and
//! the dispatch of decoded frames to coordinator messages.
//!
//! The session owns only a best-effort copy of its state; the Session State
//! Coordinator's copy is authoritative. Socket I/O, timers and JSON live
//! outside the crate: the caller hands in decoded frames and the current
//! time, and performs the actions and messages handed back.

use vstd::prelude::*;
use crate::claims::{Claims, TokenError};
use crate::communication::{
    CreateLobbyRequest, GameState, JoinLobbyRequest, LeaveLobbyRequest, SynchronizeState,
    TransitionEvent, WebSocketMessage, WebsocketAuthJwt,
};
use crate::ids::{parse_uuid, parsed_uuid, ConnectionId, LobbyId, PlayerId};
use crate::user_state::{player_of, spec_transition, UserEvent, UserState};

verus! {

/// How often heartbeat pings are sent, in seconds.
pub const HEARTBEAT_INTERVAL: u64 = 5;

/// How long without client activity before the connection is dropped, in
/// seconds.
pub const CLIENT_TIMEOUT: u64 = 10;

/// What one heartbeat tick decides: keep the connection alive (ping it and
/// synchronize its state) or stop it.
#[derive(Clone, PartialEq, Eq, Structural, Debug)]
pub enum HeartbeatAction {
    Ping { sync: SynchronizeState },
    Stop,
}

/// A transport-level frame, as the socket layer hands it over.
#[derive(Debug)]
pub enum SocketFrame {
    /// The socket reported a protocol error.
    Error,
    Ping(Vec<u8>),
    Pong,
    Text(String),
    Binary(Vec<u8>),
    Close,
    Continuation,
    Nop,
}

/// What the session asks the socket layer to do with a frame.
#[derive(Debug)]
pub enum FrameAction {
    /// Answer the client's ping with this payload.
    Pong(Vec<u8>),
    /// Decode this text payload as a protocol message, then dispatch it;
    /// an unparseable payload is logged and dropped, never fatal.
    Parse(String),
    /// Nothing to do.
    Idle,
    /// Stop the connection.
    Stop,
    /// Close the socket, then stop the connection.
    CloseAndStop,
}

/// A message the session sends to a coordinator.
#[derive(Debug)]
pub enum OutboundMessage {
    /// Decode the bearer token, then raise `Login` via `TransitionEvent`.
    Authenticate(WebsocketAuthJwt),
    /// Push the snapshot into the player's history.
    PushGameState(GameState),
    CreateLobby(CreateLobbyRequest),
    JoinLobby(JoinLobbyRequest),
    LeaveLobby(LeaveLobbyRequest),
}

/// One live WebSocket connection.
pub struct WsSession {
    /// Best-effort cached copy of this connection's session state.
    pub user_state: UserState,
    /// The player this connection represents.
    pub user_id: PlayerId,
    /// Unique id of this connection.
    pub connection_id: ConnectionId,
    /// Time of the last observed client activity, in seconds.
    pub hb: u64,
}

impl WsSession {
    pub fn set_player_state(&mut self, player_state: UserState)
        ensures
            *final(self) == (WsSession { user_state: player_state, ..*old(self) }),
    {
        self.user_state = player_state;
    }

    pub fn player_state_mut(&mut self) -> (r: &mut UserState)
        ensures
            *r == old(self).user_state,
            *final(self) == (WsSession { user_state: *final(r), ..*old(self) }),
    {
        &mut self.user_state
    }

    /// The player this session's cached state belongs to.
    pub fn user_id(&self) -> (r: Option<PlayerId>)
        ensures
            r == Some(player_of(self.user_state)),
    {
        self.user_state.user_id()
    }

    /// One heartbeat tick: while client activity has been seen within the
    /// timeout, ping and synchronize state; otherwise stop the connection.
    pub fn check_heartbeat(&self, now: u64) -> (r: HeartbeatAction)
        requires
            now >= self.hb,
        ensures
            now - self.hb < CLIENT_TIMEOUT ==> r == (HeartbeatAction::Ping {
                sync: SynchronizeState { state: self.user_state },
            }),
            now - self.hb >= CLIENT_TIMEOUT ==> r == HeartbeatAction::Stop,
    {
        if now - self.hb < CLIENT_TIMEOUT {
            HeartbeatAction::Ping { sync: SynchronizeState { state: self.user_state } }
        } else {
            HeartbeatAction::Stop
        }
    }

    /// One transport frame: pings and pongs refresh the heartbeat clock,
    /// text goes to the protocol decoder, errors and closes stop the
    /// connection, the rest is ignored.
    pub fn handle_frame(&mut self, frame: SocketFrame, now: u64) -> (r: FrameAction)
        ensures
            (frame matches SocketFrame::Error) ==> (r is Stop && *final(self) == *old(self)),
            frame matches SocketFrame::Ping(p) ==> ((r matches FrameAction::Pong(q) && q == p)
                && *final(self) == (WsSession { hb: now, ..*old(self) })),
            (frame matches SocketFrame::Pong) ==> (r is Idle && *final(self) == (WsSession {
                hb: now,
                ..*old(self)
            })),
            frame matches SocketFrame::Text(t) ==> ((r matches FrameAction::Parse(u) && u == t)
                && *final(self) == *old(self)),
            (frame matches SocketFrame::Binary(_)) ==> (r is Idle && *final(self) == *old(self)),
            (frame matches SocketFrame::Close) ==> (r is CloseAndStop && *final(self) == *old(
                self,
            )),
            (frame matches SocketFrame::Continuation) ==> (r is Stop && *final(self) == *old(
                self,
            )),
            (frame matches SocketFrame::Nop) ==> (r is Idle && *final(self) == *old(self)),
    {
        match frame {
            SocketFrame::Error => FrameAction::Stop,
            SocketFrame::Ping(p) => {
                self.hb = now;
                FrameAction::Pong(p)
            }
            SocketFrame::Pong => {
                self.hb = now;
                FrameAction::Idle
            }
            SocketFrame::Text(t) => FrameAction::Parse(t),
            SocketFrame::Binary(_) => FrameAction::Idle,
            SocketFrame::Close => FrameAction::CloseAndStop,
            SocketFrame::Continuation => FrameAction::Stop,
            SocketFrame::Nop => FrameAction::Idle,
        }
    }

    /// One decoded protocol message: membership requests go out to the
    /// coordinators, and the session's cached state transitions as the
    /// request implies.
    pub fn handle_message(&mut self, msg: WebSocketMessage) -> (r: OutboundMessage)
        ensures
            msg matches WebSocketMessage::Auth(a) ==> ((r matches OutboundMessage::Authenticate(
                b,
            ) && b == a) && *final(self) == *old(self)),
            msg matches WebSocketMessage::GameState(g) ==> ((r matches
                OutboundMessage::PushGameState(h) && h == g) && *final(self) == *old(self)),
            msg matches WebSocketMessage::CreateLobby(req) ==> ((r matches
                OutboundMessage::CreateLobby(q) && q == req) && *final(self) == (WsSession {
                user_state: spec_transition(
                    old(self).user_state,
                    UserEvent::JoinLobby(LobbyId(player_of(old(self).user_state).0)),
                ),
                ..*old(self)
            })),
            msg matches WebSocketMessage::JoinLobby(req) ==> ((r matches
                OutboundMessage::JoinLobby(q) && q == req) && (match parsed_uuid(req.lobby_name@) {
                Some(v) => *final(self) == (WsSession {
                    user_state: spec_transition(
                        old(self).user_state,
                        UserEvent::JoinLobby(LobbyId(v)),
                    ),
                    ..*old(self)
                }),
                None => *final(self) == *old(self),
            })),
            msg matches WebSocketMessage::LeaveLobby(req) ==> ((r matches
                OutboundMessage::LeaveLobby(q) && q == req) && *final(self) == (WsSession {
                user_state: spec_transition(old(self).user_state, UserEvent::Exit),
                ..*old(self)
            })),
    {
        match msg {
            WebSocketMessage::Auth(a) => OutboundMessage::Authenticate(a),
            WebSocketMessage::GameState(g) => OutboundMessage::PushGameState(g),
            WebSocketMessage::CreateLobby(req) => {
                match self.user_state.user_id() {
                    Some(uuid) => {
                        self.user_state.transition(UserEvent::JoinLobby(LobbyId(uuid.0)));
                    }
                    None => {}
                }
                OutboundMessage::CreateLobby(req)
            }
            WebSocketMessage::JoinLobby(req) => {
                // A lobby name that is no UUID carries no lobby id: the
                // membership request still goes out by name, but the cached
                // transition for this one offending message is rejected.
                match parse_uuid(&req.lobby_name) {
                    Some(v) => {
                        self.user_state.transition(UserEvent::JoinLobby(LobbyId(v)));
                    }
                    None => {}
                }
                OutboundMessage::JoinLobby(req)
            }
            WebSocketMessage::LeaveLobby(req) => {
                self.user_state.transition(UserEvent::Exit);
                OutboundMessage::LeaveLobby(req)
            }
        }
    }

    /// An authentication frame's claims, turned into the `Login` transition
    /// for this connection; claims without a UUID player id are rejected.
    pub fn login_event(&self, claims: &Claims) -> (r: Result<TransitionEvent, TokenError>)
        ensures
            parsed_uuid(claims.uuid@) matches Some(v) ==> (r matches Ok(te) && te.connection_id
                == self.connection_id && te.event == UserEvent::Login(PlayerId(v))),
            parsed_uuid(claims.uuid@) is None ==> (r matches Err(e) && e is ParseError),
    {
        match claims.uuid() {
            Ok(player_id) => Ok(
                TransitionEvent {
                    connection_id: self.connection_id,
                    event: UserEvent::Login(player_id),
                },
            ),
            Err(e) => Err(e),
        }
    }
}

} // verus!
