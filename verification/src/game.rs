//! One session of the game: its value, its rules, and the state machine
//! that applies them.

use crate::error::GameError;
use crate::identity::same_identity;
use crate::player::{GameState, Player, Turn, HAND_LIMIT};
use candid::Principal;
use vstd::prelude::*;

verus! {

/// The count on a hand that showed `target` after it was struck by a hand
/// showing `striking`: the sum, or zero once the sum reaches `HAND_LIMIT`.
pub open spec fn spec_struck(target: u8, striking: u8) -> int {
    if target + striking >= HAND_LIMIT {
        0
    } else {
        target + striking
    }
}

/// The count on a hand that showed `target` after `transfer` was moved onto
/// it from the same player's other hand: the sum, wrapped at `HAND_LIMIT`.
pub open spec fn spec_topped_up(target: u8, transfer: u8) -> int {
    (target + transfer) % (HAND_LIMIT as int)
}

/// Whether a redistribution that leaves `new_source` and `new_target` on
/// hands that showed `source` and `target` has only swapped the two.
pub open spec fn spec_symmetric(source: u8, target: u8, new_source: int, new_target: int) -> bool {
    new_source == target && new_target == source
}

/// The mathematical value of a session.
pub struct GameView {
    pub session_id: Seq<char>,
    pub player1: Player,
    pub player2: Option<Player>,
    pub state: GameState,
    pub current_turn: Turn,
}

impl GameView {
    /// What holds of every session at rest: all hands are within range, and
    /// the second player is missing exactly while the session waits for one.
    pub open spec fn well_formed(self) -> bool {
        &&& self.player1.well_formed()
        &&& (self.player2 matches Some(p) ==> p.well_formed())
        &&& (self.state is WaitingForPlayer <==> self.player2 is None)
    }

    /// The session that `id` opens under `session_id`, with the first move
    /// given to `first`.
    pub open spec fn created(session_id: Seq<char>, id: Principal, first: Turn) -> GameView {
        GameView {
            session_id,
            player1: Player::spec_fresh(id),
            player2: None,
            state: GameState::WaitingForPlayer,
            current_turn: first,
        }
    }

    /// The player in the seat that moves on `turn`, if that seat is taken.
    pub open spec fn seat(self, turn: Turn) -> Option<Player> {
        match turn {
            Turn::Player1 => Some(self.player1),
            Turn::Player2 => self.player2,
        }
    }

    /// The player whose turn it is, if that seat is taken.
    pub open spec fn active(self) -> Option<Player> {
        self.seat(self.current_turn)
    }

    /// The player whose turn it is not, if that seat is taken.
    pub open spec fn opponent(self) -> Option<Player> {
        self.seat(self.current_turn.spec_flipped())
    }

    /// Whether `id` is the identity of the player whose turn it is.
    pub open spec fn is_turn_of(self, id: Principal) -> bool {
        self.active() matches Some(p) && p.id == id
    }

    /// This session with `player` in the seat whose turn it is.
    pub open spec fn with_active(self, player: Player) -> GameView {
        match self.current_turn {
            Turn::Player1 => GameView { player1: player, ..self },
            Turn::Player2 => GameView { player2: Some(player), ..self },
        }
    }

    /// This session with `player` in the seat whose turn it is not.
    pub open spec fn with_opponent(self, player: Player) -> GameView {
        match self.current_turn {
            Turn::Player1 => GameView { player2: Some(player), ..self },
            Turn::Player2 => GameView { player1: player, ..self },
        }
    }

    /// The session after `id` has asked to join it. Joining takes the free
    /// seat of a waiting session and starts the game; on any other session
    /// it changes nothing.
    pub open spec fn joined(self, id: Principal) -> GameView {
        if self.state is WaitingForPlayer && self.player2 is None {
            GameView {
                player2: Some(Player::spec_fresh(id)),
                state: GameState::InProgress,
                ..self
            }
        } else {
            self
        }
    }

    /// Whether `id` may attack with the selected hand, and if not, why not.
    /// The first reason that applies is given.
    pub open spec fn attack_verdict(self, id: Principal, hand: u8) -> Result<(), GameError> {
        if !(self.state is InProgress) {
            Err(GameError::NotInProgress)
        } else if !self.is_turn_of(id) {
            Err(GameError::NotYourTurn)
        } else if self.active()->0.spec_hand(hand) == 0 {
            Err(GameError::DeadHand)
        } else {
            Ok(())
        }
    }

    /// The session after `id` has tried to attack the opponent's hand
    /// `target_hand` with the own hand `hand`. A refused attack changes
    /// nothing. An accepted one strikes the target; if that leaves the
    /// opponent without a live hand the attacker has won, otherwise the
    /// turn passes.
    pub open spec fn attacked(self, id: Principal, hand: u8, target_hand: u8) -> GameView {
        if self.attack_verdict(id, hand) is Err {
            self
        } else {
            let striking = self.active()->0.spec_hand(hand);
            let opponent = self.opponent()->0;
            let hit = opponent.spec_with_hand(
                target_hand,
                spec_struck(opponent.spec_hand(target_hand), striking) as u8,
            );
            let struck = self.with_opponent(hit);
            if hit.spec_is_out() {
                GameView { state: GameState::Finished(id), ..struck }
            } else {
                GameView { current_turn: self.current_turn.spec_flipped(), ..struck }
            }
        }
    }

    /// Whether `id` may move `transfer` from the selected hand to the other
    /// own hand, and if not, why not. The first reason that applies is
    /// given.
    pub open spec fn redistribute_verdict(self, id: Principal, hand: u8, transfer: u8) -> Result<
        (),
        GameError,
    > {
        if !(self.state is InProgress) {
            Err(GameError::NotInProgress)
        } else if !self.is_turn_of(id) {
            Err(GameError::NotYourTurn)
        } else {
            let source = self.active()->0.spec_hand(hand);
            let target = self.active()->0.spec_other_hand(hand);
            if transfer > source {
                Err(GameError::InsufficientCount)
            } else if spec_symmetric(
                source,
                target,
                source - transfer,
                spec_topped_up(target, transfer),
            ) {
                Err(GameError::SymmetricMoveForbidden)
            } else {
                Ok(())
            }
        }
    }

    /// The session after `id` has tried to move `transfer` from the
    /// selected hand to the other own hand. A refused move changes nothing.
    /// An accepted one changes the two hands of the mover and nothing else:
    /// the turn stays, and the session does not end.
    pub open spec fn redistributed(self, id: Principal, hand: u8, transfer: u8) -> GameView {
        if self.redistribute_verdict(id, hand, transfer) is Err {
            self
        } else {
            let mover = self.active()->0;
            let source = mover.spec_hand(hand);
            let target = mover.spec_other_hand(hand);
            self.with_active(
                mover.spec_with_hand(hand, (source - transfer) as u8).spec_with_other_hand(
                    hand,
                    spec_topped_up(target, transfer) as u8,
                ),
            )
        }
    }
}

/// One session of the game.
#[derive(Debug, PartialEq, Eq)]
pub struct Game {
    session_id: String,
    player1: Player,
    player2: Option<Player>,
    state: GameState,
    current_turn: Turn,
}

impl View for Game {
    type V = GameView;

    closed spec fn view(&self) -> GameView {
        GameView {
            session_id: self.session_id@,
            player1: self.player1,
            player2: self.player2,
            state: self.state,
            current_turn: self.current_turn,
        }
    }
}

impl Clone for Game {
    /// A snapshot of the session.
    fn clone(&self) -> (copy: Game)
        ensures
            copy == *self,
    {
        Game {
            session_id: self.session_id.clone(),
            player1: self.player1,
            player2: self.player2,
            state: self.state,
            current_turn: self.current_turn,
        }
    }
}

impl Game {
    /// What holds of every session at rest; see `GameView::well_formed`.
    pub open spec fn well_formed(&self) -> bool {
        self@.well_formed()
    }

    /// Opens a session under `session_id` for the player `player_id`, who
    /// starts with one finger on each hand and waits for an opponent. The
    /// coin decides who will move first: heads for the creator, tails for
    /// the player who joins.
    pub fn new(session_id: String, player_id: Principal, heads: bool) -> (game: Game)
        ensures
            game@ == GameView::created(session_id@, player_id, Turn::spec_from_coin(heads)),
            game.well_formed(),
    {
        Game {
            session_id,
            player1: Player::fresh(player_id),
            player2: None,
            state: GameState::WaitingForPlayer,
            current_turn: Turn::from_coin(heads),
        }
    }

    /// Puts together a session from stored parts, if they make up a
    /// well-formed one.
    pub fn from_parts(
        session_id: String,
        player1: Player,
        player2: Option<Player>,
        state: GameState,
        current_turn: Turn,
    ) -> (game: Option<Game>)
        ensures
            match game {
                Some(g) => g.well_formed() && g@ == (GameView {
                    session_id: session_id@,
                    player1,
                    player2,
                    state,
                    current_turn,
                }),
                None => !(GameView {
                    session_id: session_id@,
                    player1,
                    player2,
                    state,
                    current_turn,
                }).well_formed(),
            },
    {
        let hands_ok = player1.is_well_formed() && match player2 {
            Some(p) => p.is_well_formed(),
            None => true,
        };
        let waiting = match state {
            GameState::WaitingForPlayer => true,
            _ => false,
        };
        if hands_ok && waiting == player2.is_none() {
            Some(Game { session_id, player1, player2, state, current_turn })
        } else {
            None
        }
    }

    /// Whether the session is well-formed.
    pub fn is_well_formed(&self) -> (ok: bool)
        ensures
            ok == self.well_formed(),
    {
        let waiting = match self.state {
            GameState::WaitingForPlayer => true,
            _ => false,
        };
        let second_ok = match self.player2 {
            Some(p) => p.is_well_formed(),
            None => true,
        };
        self.player1.is_well_formed() && second_ok && waiting == self.player2.is_none()
    }

    /// The identifier under which the session was opened.
    pub fn session_id(&self) -> (id: &String)
        ensures
            id@ == self@.session_id,
    {
        &self.session_id
    }

    /// The player who opened the session.
    pub fn player1(&self) -> (player: Player)
        ensures
            player == self@.player1,
    {
        self.player1
    }

    /// The player who joined the session, once there is one.
    pub fn player2(&self) -> (player: Option<Player>)
        ensures
            player == self@.player2,
    {
        self.player2
    }

    /// Where the session stands.
    pub fn state(&self) -> (state: GameState)
        ensures
            state == self@.state,
    {
        self.state
    }

    /// Whose move it is.
    pub fn current_turn(&self) -> (turn: Turn)
        ensures
            turn == self@.current_turn,
    {
        self.current_turn
    }

    /// Seats `player_id` as the second player of a waiting session and
    /// starts the game. On a session that is not waiting this does nothing.
    pub fn join(&mut self, player_id: Principal)
        ensures
            final(self)@ == old(self)@.joined(player_id),
            old(self).well_formed() ==> final(self).well_formed(),
    {
        let waiting = match self.state {
            GameState::WaitingForPlayer => true,
            _ => false,
        };
        if waiting && self.player2.is_none() {
            self.player2 = Some(Player::fresh(player_id));
            self.state = GameState::InProgress;
        }
    }

    /// The player whose turn it is, if that seat is taken.
    fn active_player(&self) -> (player: Option<Player>)
        ensures
            player == self@.active(),
    {
        match self.current_turn {
            Turn::Player1 => Some(self.player1),
            Turn::Player2 => self.player2,
        }
    }

    /// The player whose turn it is not, if that seat is taken.
    fn opposing_player(&self) -> (player: Option<Player>)
        ensures
            player == self@.opponent(),
    {
        match self.current_turn {
            Turn::Player1 => self.player2,
            Turn::Player2 => Some(self.player1),
        }
    }

    /// The player who may move now, provided that the game is in progress
    /// and that this player is `player_id`.
    fn mover(&self, player_id: &Principal) -> (mover: Result<Player, GameError>)
        ensures
            match mover {
                Ok(p) => self@.state is InProgress && self@.active() == Some(p) && p.id
                    == *player_id,
                Err(e) => if self@.state is InProgress {
                    e == GameError::NotYourTurn && !self@.is_turn_of(*player_id)
                } else {
                    e == GameError::NotInProgress
                },
            },
    {
        match self.state {
            GameState::InProgress => {},
            _ => {
                return Err(GameError::NotInProgress);
            },
        }
        match self.active_player() {
            Some(p) => {
                if same_identity(&p.id, player_id) {
                    Ok(p)
                } else {
                    Err(GameError::NotYourTurn)
                }
            },
            None => Err(GameError::NotYourTurn),
        }
    }

    /// Attack: `player_id` strikes the opponent's hand `target_hand` with
    /// the own hand `hand` (`0` selects a left hand, any other selector a
    /// right hand).
    ///
    /// The attack is refused with `NotInProgress` unless the game is in
    /// progress, else with `NotYourTurn` unless it is `player_id`'s turn,
    /// else with `DeadHand` if the striking hand shows zero. Otherwise the
    /// count of the striking hand is added to the target, which drops to
    /// zero if it reaches five. If the opponent then has no live hand the
    /// game is over and `player_id` has won; if not, the turn passes.
    pub fn make_move_opponent(&mut self, player_id: Principal, hand: u8, target_hand: u8) -> (done:
        Result<(), GameError>)
        requires
            old(self).well_formed(),
        ensures
            done == old(self)@.attack_verdict(player_id, hand),
            final(self)@ == old(self)@.attacked(player_id, hand, target_hand),
            done is Err ==> final(self)@ == old(self)@,
            final(self).well_formed(),
    {
        let attacker = match self.mover(&player_id) {
            Ok(p) => p,
            Err(e) => {
                return Err(e);
            },
        };
        let striking = attacker.hand(hand);
        if striking == 0 {
            return Err(GameError::DeadHand);
        }
        let opponent = match self.opposing_player() {
            Some(p) => p,
            // A game in progress has both of its players.
            None => {
                return Ok(());
            },
        };
        let sum = opponent.hand(target_hand) + striking;
        let hit = opponent.with_hand(
            target_hand,
            if sum >= HAND_LIMIT {
                0
            } else {
                sum
            },
        );
        match self.current_turn {
            Turn::Player1 => {
                self.player2 = Some(hit);
            },
            Turn::Player2 => {
                self.player1 = hit;
            },
        }
        if hit.is_out() {
            self.state = GameState::Finished(player_id);
        } else {
            self.current_turn = self.current_turn.flipped();
        }
        Ok(())
    }

    /// Redistribution: `player_id` moves `transfer` from the own hand
    /// `current_hand` to the other own hand (`0` selects the left hand as
    /// the source, any other selector the right).
    ///
    /// The move is refused with `NotInProgress` unless the game is in
    /// progress, else with `NotYourTurn` unless it is `player_id`'s turn,
    /// else with `InsufficientCount` if the source shows less than
    /// `transfer`, else with `SymmetricMoveForbidden` if it would only swap
    /// the two hands. Otherwise the source loses `transfer` and the other
    /// hand gains it, wrapping around at five. The turn does not pass, and
    /// the game does not end.
    pub fn make_move_other_hand(&mut self, player_id: Principal, current_hand: u8, transfer: u8)
        -> (done: Result<(), GameError>)
        requires
            old(self).well_formed(),
        ensures
            done == old(self)@.redistribute_verdict(player_id, current_hand, transfer),
            final(self)@ == old(self)@.redistributed(player_id, current_hand, transfer),
            done is Err ==> final(self)@ == old(self)@,
            final(self).well_formed(),
    {
        let mover = match self.mover(&player_id) {
            Ok(p) => p,
            Err(e) => {
                return Err(e);
            },
        };
        let source = mover.hand(current_hand);
        let target = mover.other_hand(current_hand);
        if transfer > source {
            return Err(GameError::InsufficientCount);
        }
        let new_source = source - transfer;
        let new_target = (target + transfer) % HAND_LIMIT;
        if new_source == target && new_target == source {
            return Err(GameError::SymmetricMoveForbidden);
        }
        let moved = mover.with_hand(current_hand, new_source).with_other_hand(
            current_hand,
            new_target,
        );
        match self.current_turn {
            Turn::Player1 => {
                self.player1 = moved;
            },
            Turn::Player2 => {
                self.player2 = Some(moved);
            },
        }
        Ok(())
    }
}

} // verus!
