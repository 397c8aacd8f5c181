//! Rules engine for Chopsticks, a turn-based hand game for two players.
//!
//! A [`Game`] is the state machine of one session: it is created by its first
//! player, joined by a second, and then advanced by attacks and
//! redistributions until one player has lost both hands. A
//! [`SessionRegistry`] keeps the live sessions by their identifiers.
//!
//! Every executable function carries a contract that is checked by Verus.
//! The contracts are stated over [`GameView`], the mathematical value of a
//! game, and over a map from session identifiers to such values.

pub mod error;
pub mod game;
pub mod identity;
pub mod laws;
pub mod player;
pub mod registry;
pub mod session_id;

pub use error::GameError;
pub use game::{Game, GameView};
pub use player::{GameState, Player, Turn};
pub use registry::SessionRegistry;
pub use session_id::{first_session_id, session_id_from_response};
