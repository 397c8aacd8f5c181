//! The ways in which a request to the engine can be refused.

use vstd::prelude::*;

verus! {

/// Why a request was refused. Every refusal leaves the engine as it was.
#[derive(Clone, Copy, Debug, PartialEq, Eq)]
pub enum GameError {
    /// A move was made in a session that is still waiting for its second
    /// player, or that is already over.
    NotInProgress,
    /// A move was made by someone other than the player whose turn it is.
    NotYourTurn,
    /// An attack was made with a hand that shows zero.
    DeadHand,
    /// A redistribution asked for more than the source hand shows.
    InsufficientCount,
    /// A redistribution would only have swapped the two hands.
    SymmetricMoveForbidden,
    /// No session has the given identifier.
    SessionNotFound,
    /// No fresh session identifier could be had.
    IdGenerationFailed,
}

impl GameError {
    /// The text that describes this refusal to a player.
    pub open spec fn spec_message(self) -> Seq<char> {
        match self {
            GameError::NotInProgress => "Game is not in Progress"@,
            GameError::NotYourTurn => "Player not allowed to play"@,
            GameError::DeadHand => "Cannot make move with this hand"@,
            GameError::InsufficientCount => "You cant transfer more than the amount in ur hand"@,
            GameError::SymmetricMoveForbidden => "Symmetric Operations are not allowed"@,
            GameError::SessionNotFound => "Game not found"@,
            GameError::IdGenerationFailed => "Session id could not be generated"@,
        }
    }

    /// The text that describes this refusal of a redistribution. It differs
    /// from `spec_message` only where the player was out of turn.
    pub open spec fn spec_transfer_message(self) -> Seq<char> {
        match self {
            GameError::NotYourTurn => "You are not allowed to play"@,
            _ => self.spec_message(),
        }
    }

    /// The text that describes this refusal to a player.
    pub fn message(&self) -> (text: String)
        ensures
            text@ == self.spec_message(),
    {
        match self {
            GameError::NotInProgress => "Game is not in Progress".to_owned(),
            GameError::NotYourTurn => "Player not allowed to play".to_owned(),
            GameError::DeadHand => "Cannot make move with this hand".to_owned(),
            GameError::InsufficientCount => {
                "You cant transfer more than the amount in ur hand".to_owned()
            },
            GameError::SymmetricMoveForbidden => "Symmetric Operations are not allowed".to_owned(),
            GameError::SessionNotFound => "Game not found".to_owned(),
            GameError::IdGenerationFailed => "Session id could not be generated".to_owned(),
        }
    }

    /// The text that describes this refusal of a redistribution.
    pub fn transfer_message(&self) -> (text: String)
        ensures
            text@ == self.spec_transfer_message(),
    {
        match self {
            GameError::NotYourTurn => "You are not allowed to play".to_owned(),
            _ => self.message(),
        }
    }
}

} // verus!
