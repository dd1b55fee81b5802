//! A typestate view of one player's connection phase: each phase is its own
//! type, and the transitions are method calls that consume the old phase.

use vstd::prelude::*;
use crate::ids::{GameId, PlayerId};

verus! {

#[derive(Debug, Clone, Copy, PartialEq, Eq, Structural)]
pub struct Player {
    pub id: PlayerId,
}

#[derive(Debug)]
pub struct InLobby {
    pub player: Player,
    pub lobby_name: String,
}

#[derive(Debug, Clone, Copy, PartialEq, Eq, Structural)]
pub struct InMenu {
    pub player: Player,
}

#[derive(Debug, Clone, Copy, PartialEq, Eq, Structural)]
pub struct InGame {
    pub player: Player,
    pub game_session_id: GameId,
}

/// The phase before a player has been attached.
#[derive(Debug, Clone, Copy, PartialEq, Eq, Structural)]
pub struct Initializing;

/// Marker for the types that stand for a connection phase.
pub trait PlayerState {

}

impl PlayerState for Initializing {

}

impl PlayerState for InLobby {

}

impl PlayerState for InMenu {

}

impl PlayerState for InGame {

}

/// The phases that carry a player.
pub trait HasPlayer {
    /// The player this phase belongs to.
    spec fn spec_player(&self) -> Player;

    fn get_player(&self) -> (r: &Player)
        ensures
            *r == self.spec_player(),
    ;
}

impl HasPlayer for InMenu {
    open spec fn spec_player(&self) -> Player {
        self.player
    }

    fn get_player(&self) -> (r: &Player) {
        &self.player
    }
}

impl HasPlayer for InLobby {
    open spec fn spec_player(&self) -> Player {
        self.player
    }

    fn get_player(&self) -> (r: &Player) {
        &self.player
    }
}

impl HasPlayer for InGame {
    open spec fn spec_player(&self) -> Player {
        self.player
    }

    fn get_player(&self) -> (r: &Player) {
        &self.player
    }
}

#[derive(Debug)]
pub struct PlayerContext<S> {
    pub state: S,
}

impl<S: HasPlayer> PlayerContext<S> {
    /// The id of the player this context belongs to.
    pub fn id(&self) -> (r: PlayerId)
        ensures
            r == self.state.spec_player().id,
    {
        self.state.get_player().id
    }
}

impl PlayerContext<Initializing> {
    pub fn new() -> (r: Self)
        ensures
            r == (PlayerContext { state: Initializing }),
    {
        PlayerContext { state: Initializing }
    }

    /// Attaches a player, entering the menu phase.
    pub fn set_player(self, player: Player) -> (r: PlayerContext<InMenu>)
        ensures
            r.state.player == player,
    {
        PlayerContext { state: InMenu { player } }
    }
}

impl PlayerContext<InMenu> {
    pub fn new(player: Player) -> (r: Self)
        ensures
            r.state.player == player,
    {
        PlayerContext { state: InMenu { player } }
    }

    /// Enters a lobby, keeping the player.
    pub fn join_lobby(self, lobby_name: String) -> (r: PlayerContext<InLobby>)
        ensures
            r.state.player == self.state.player,
            r.state.lobby_name == lobby_name,
    {
        PlayerContext { state: InLobby { player: self.state.player, lobby_name } }
    }
}

impl PlayerContext<InLobby> {
    /// Leaves the lobby, back to the menu, keeping the player.
    pub fn leave_lobby(self) -> (r: PlayerContext<InMenu>)
        ensures
            r.state.player == self.state.player,
    {
        PlayerContext { state: InMenu { player: self.state.player } }
    }

    pub fn get_lobby_name(&self) -> (r: &String)
        ensures
            r == &self.state.lobby_name,
    {
        &self.state.lobby_name
    }
}

impl PlayerContext<InGame> {
    /// Leaves the game session, back to the menu, keeping the player.
    pub fn leave_game(self) -> (r: PlayerContext<InMenu>)
        ensures
            r.state.player == self.state.player,
    {
        PlayerContext { state: InMenu { player: self.state.player } }
    }

    pub fn get_game_session_id(&self) -> (r: GameId)
        ensures
            r == self.state.game_session_id,
    {
        self.state.game_session_id
    }
}

} // verus!
