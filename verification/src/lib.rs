//! Real-time multiplayer coordination layer of the Starblazers backend.
//!
//! The crate tracks which players are connected, which lobby each player
//! occupies, relays authenticated player actions, and keeps a short rolling
//! history of each player's last known game state.

pub mod assoc;
pub mod claims;
pub mod cli;
pub mod communication;
pub mod configuration;
pub mod cookie;
pub mod ids;
pub mod lobbies;
pub mod lobby_manager;
pub mod multiplayer_error;
pub mod player_context;
pub mod queries;
pub mod ringbuffer;
pub mod text;
pub mod types;
pub mod user_state;
pub mod user_state_manager;
pub mod ws_session;
