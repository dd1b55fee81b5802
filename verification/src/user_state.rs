//! The session state machine: authentication, lobby membership, game
//! membership.
//!
//! A connection with no registry entry is implicitly unauthenticated; the
//! states below all carry the player the connection represents. Transitions
//! outside the table leave the state unchanged and are never fatal.

use vstd::prelude::*;
use crate::ids::{GameId, LobbyId, PlayerId};

verus! {

#[derive(Clone, Copy, PartialEq, Eq, Structural, Debug)]
pub enum UserState {
    Authenticated { player_id: PlayerId },
    InLobby { player_id: PlayerId, lobby_id: LobbyId },
    InGame { player_id: PlayerId, game_id: GameId },
}

#[derive(Clone, Copy, PartialEq, Eq, Structural, Debug)]
pub enum UserEvent {
    Login(PlayerId),
    Logout,
    JoinLobby(LobbyId),
    StartGame(GameId),
    Exit,
}

/// The player a state belongs to; every reachable state carries exactly one.
pub open spec fn player_of(s: UserState) -> PlayerId {
    match s {
        UserState::Authenticated { player_id } => player_id,
        UserState::InLobby { player_id, .. } => player_id,
        UserState::InGame { player_id, .. } => player_id,
    }
}

/// The transition table. Every (state, event) pair outside it is rejected:
/// the state is returned unchanged.
pub open spec fn spec_transition(s: UserState, e: UserEvent) -> UserState {
    match (s, e) {
        (UserState::Authenticated { player_id }, UserEvent::JoinLobby(lobby_id)) =>
            UserState::InLobby { player_id, lobby_id },
        (UserState::InLobby { player_id, .. }, UserEvent::Exit) =>
            UserState::Authenticated { player_id },
        (UserState::Authenticated { player_id }, UserEvent::StartGame(game_id)) =>
            UserState::InGame { player_id, game_id },
        (UserState::InGame { player_id, .. }, UserEvent::Exit) =>
            UserState::Authenticated { player_id },
        _ => s,
    }
}

/// Whether the transition table lists the pair `(s, e)`.
pub open spec fn listed_transition(s: UserState, e: UserEvent) -> bool {
    ||| (s matches UserState::Authenticated { .. } && e matches UserEvent::JoinLobby(_))
    ||| (s matches UserState::InLobby { .. } && e matches UserEvent::Exit)
    ||| (s matches UserState::Authenticated { .. } && e matches UserEvent::StartGame(_))
    ||| (s matches UserState::InGame { .. } && e matches UserEvent::Exit)
}

impl UserState {
    /// Applies the state machine. Pairs outside the transition table leave
    /// the state unchanged; the operation never fails.
    pub fn transition(&mut self, event: UserEvent)
        ensures
            *final(self) == spec_transition(*old(self), event),
    {
        match (&*self, event) {
            // Join a lobby after authenticating.
            (UserState::Authenticated { player_id }, UserEvent::JoinLobby(lobby_id)) => {
                *self = UserState::InLobby { player_id: *player_id, lobby_id };
            }
            // Leave a lobby while remaining authenticated.
            (UserState::InLobby { player_id, .. }, UserEvent::Exit) => {
                *self = UserState::Authenticated { player_id: *player_id };
            }
            // Join a game session after authenticating (bypassing the lobby).
            (UserState::Authenticated { player_id }, UserEvent::StartGame(game_id)) => {
                *self = UserState::InGame { player_id: *player_id, game_id };
            }
            // Leave a game session while remaining authenticated.
            (UserState::InGame { player_id, .. }, UserEvent::Exit) => {
                *self = UserState::Authenticated { player_id: *player_id };
            }
            _ => {}
        }
    }

    /// The player this session represents.
    pub fn user_id(&self) -> (r: Option<PlayerId>)
        ensures
            r == Some(player_of(*self)),
    {
        match self {
            UserState::Authenticated { player_id } => Some(*player_id),
            UserState::InLobby { player_id, .. } => Some(*player_id),
            UserState::InGame { player_id, .. } => Some(*player_id),
        }
    }
}

/// Law: every (state, event) pair outside the transition table is rejected,
/// leaving the state exactly as it was.
pub proof fn lemma_unlisted_transition_rejected(s: UserState, e: UserEvent)
    requires
        !listed_transition(s, e),
    ensures
        spec_transition(s, e) == s,
{
}

/// Law: a transition never changes which player the session belongs to.
pub proof fn lemma_transition_keeps_player(s: UserState, e: UserEvent)
    ensures
        player_of(spec_transition(s, e)) == player_of(s),
{
}

} // verus!
