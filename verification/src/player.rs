//! Players, their hands, and the small enumerations of a game.

use candid::Principal;
use vstd::prelude::*;

verus! {

/// The largest count a live hand can show.
pub const MAX_HAND: u8 = 4;

/// The count at which a hand is out of the game.
pub const HAND_LIMIT: u8 = 5;

/// One participant: an identity and the counts on the two hands.
///
/// A count of zero means that the hand is dead.
#[derive(Clone, Copy, Debug, PartialEq, Eq)]
pub struct Player {
    pub id: Principal,
    pub left_hand: u8,
    pub right_hand: u8,
}

/// Whose move it is.
#[derive(Clone, Copy, Debug, PartialEq, Eq)]
pub enum Turn {
    Player1,
    Player2,
}

/// Where a session stands in its life.
#[derive(Clone, Copy, Debug, PartialEq, Eq)]
pub enum GameState {
    WaitingForPlayer,
    InProgress,
    /// Over; the identity is the winner's.
    Finished(Principal),
}

impl Turn {
    /// The other player's turn.
    pub open spec fn spec_flipped(self) -> Turn {
        match self {
            Turn::Player1 => Turn::Player2,
            Turn::Player2 => Turn::Player1,
        }
    }

    /// The other player's turn.
    #[verifier::when_used_as_spec(spec_flipped)]
    pub fn flipped(self) -> (next: Turn)
        ensures
            next == self.spec_flipped(),
    {
        match self {
            Turn::Player1 => Turn::Player2,
            Turn::Player2 => Turn::Player1,
        }
    }

    /// The turn that a coin flip gives the first move to.
    pub open spec fn spec_from_coin(heads: bool) -> Turn {
        if heads {
            Turn::Player1
        } else {
            Turn::Player2
        }
    }

    /// The turn that a coin flip gives the first move to: heads for the
    /// player who creates the session, tails for the one who joins it.
    #[verifier::when_used_as_spec(spec_from_coin)]
    pub fn from_coin(heads: bool) -> (first: Turn)
        ensures
            first == Turn::spec_from_coin(heads),
    {
        if heads {
            Turn::Player1
        } else {
            Turn::Player2
        }
    }
}

impl Player {
    /// Both counts are within `0..=MAX_HAND`.
    pub open spec fn well_formed(self) -> bool {
        self.left_hand <= MAX_HAND && self.right_hand <= MAX_HAND
    }

    /// A player at the start of a game: one finger on each hand.
    pub open spec fn spec_fresh(id: Principal) -> Player {
        Player { id, left_hand: 1, right_hand: 1 }
    }

    /// The count on the selected hand: `0` selects the left hand, any other
    /// selector the right.
    pub open spec fn spec_hand(self, which: u8) -> u8 {
        if which == 0 {
            self.left_hand
        } else {
            self.right_hand
        }
    }

    /// The count on the hand that the selector does not select.
    pub open spec fn spec_other_hand(self, which: u8) -> u8 {
        if which == 0 {
            self.right_hand
        } else {
            self.left_hand
        }
    }

    /// This player with the selected hand set to `count`.
    pub open spec fn spec_with_hand(self, which: u8, count: u8) -> Player {
        if which == 0 {
            Player { left_hand: count, ..self }
        } else {
            Player { right_hand: count, ..self }
        }
    }

    /// This player with the hand that the selector does not select set to
    /// `count`.
    pub open spec fn spec_with_other_hand(self, which: u8, count: u8) -> Player {
        if which == 0 {
            Player { right_hand: count, ..self }
        } else {
            Player { left_hand: count, ..self }
        }
    }

    /// Both hands are dead.
    pub open spec fn spec_is_out(self) -> bool {
        self.left_hand == 0 && self.right_hand == 0
    }

    /// A player at the start of a game: one finger on each hand.
    #[verifier::when_used_as_spec(spec_fresh)]
    pub fn fresh(id: Principal) -> (player: Player)
        ensures
            player == Player::spec_fresh(id),
            player.well_formed(),
    {
        Player { id, left_hand: 1, right_hand: 1 }
    }

    /// The count on the selected hand: `0` selects the left hand, any other
    /// selector the right.
    #[verifier::when_used_as_spec(spec_hand)]
    pub fn hand(self, which: u8) -> (count: u8)
        ensures
            count == self.spec_hand(which),
    {
        if which == 0 {
            self.left_hand
        } else {
            self.right_hand
        }
    }

    /// The count on the hand that the selector does not select.
    #[verifier::when_used_as_spec(spec_other_hand)]
    pub fn other_hand(self, which: u8) -> (count: u8)
        ensures
            count == self.spec_other_hand(which),
    {
        if which == 0 {
            self.right_hand
        } else {
            self.left_hand
        }
    }

    /// This player with the selected hand set to `count`.
    #[verifier::when_used_as_spec(spec_with_hand)]
    pub fn with_hand(self, which: u8, count: u8) -> (changed: Player)
        ensures
            changed == self.spec_with_hand(which, count),
    {
        if which == 0 {
            Player { id: self.id, left_hand: count, right_hand: self.right_hand }
        } else {
            Player { id: self.id, left_hand: self.left_hand, right_hand: count }
        }
    }

    /// This player with the hand that the selector does not select set to
    /// `count`.
    #[verifier::when_used_as_spec(spec_with_other_hand)]
    pub fn with_other_hand(self, which: u8, count: u8) -> (changed: Player)
        ensures
            changed == self.spec_with_other_hand(which, count),
    {
        if which == 0 {
            Player { id: self.id, left_hand: self.left_hand, right_hand: count }
        } else {
            Player { id: self.id, left_hand: count, right_hand: self.right_hand }
        }
    }

    /// Both hands are dead.
    #[verifier::when_used_as_spec(spec_is_out)]
    pub fn is_out(self) -> (out: bool)
        ensures
            out == self.spec_is_out(),
    {
        self.left_hand == 0 && self.right_hand == 0
    }

    /// Whether both counts are within `0..=MAX_HAND`.
    pub fn is_well_formed(self) -> (ok: bool)
        ensures
            ok == self.well_formed(),
    {
        self.left_hand <= MAX_HAND && self.right_hand <= MAX_HAND
    }
}

} // verus!
