//! What holds of the rules, stated over the values of sessions and proved.

use crate::error::GameError;
use crate::game::{Game, GameView};
use crate::player::{GameState, Turn, HAND_LIMIT, MAX_HAND};
use crate::registry::SessionRegistry;
use candid::Principal;
use vstd::prelude::*;

verus! {

/// Something that a player can ask of a session.
pub enum Request {
    Join { player: Principal },
    Attack { player: Principal, hand: u8, target_hand: u8 },
    Redistribute { player: Principal, hand: u8, transfer: u8 },
}

/// How far a session has come: waiting, in progress, finished.
pub open spec fn progress(state: GameState) -> int {
    match state {
        GameState::WaitingForPlayer => 0,
        GameState::InProgress => 1,
        GameState::Finished(_) => 2,
    }
}

impl GameView {
    /// The session after one request, granted or refused.
    pub open spec fn after(self, request: Request) -> GameView {
        match request {
            Request::Join { player } => self.joined(player),
            Request::Attack { player, hand, target_hand } => self.attacked(
                player,
                hand,
                target_hand,
            ),
            Request::Redistribute { player, hand, transfer } => self.redistributed(
                player,
                hand,
                transfer,
            ),
        }
    }

    /// The session after a series of requests, in their order.
    pub open spec fn after_all(self, requests: Seq<Request>) -> GameView
        decreases requests.len(),
    {
        if requests.len() == 0 {
            self
        } else {
            self.after_all(requests.drop_last()).after(requests.last())
        }
    }
}

/// No request takes a well-formed session to one that is not.
pub proof fn lemma_request_keeps_well_formed(game: GameView, request: Request)
    requires
        game.well_formed(),
    ensures
        game.after(request).well_formed(),
{
}

/// Whatever is asked of a session from its creation on, the second player
/// is missing exactly while the session waits for one, and every hand
/// shows a count between zero and `MAX_HAND`.
pub proof fn lemma_reachable_well_formed(
    session_id: Seq<char>,
    creator: Principal,
    first: Turn,
    requests: Seq<Request>,
)
    ensures
        ({
            let game = GameView::created(session_id, creator, first).after_all(requests);
            &&& game.well_formed()
            &&& (game.state is WaitingForPlayer <==> game.player2 is None)
            &&& game.player1.left_hand <= MAX_HAND
            &&& game.player1.right_hand <= MAX_HAND
            &&& (game.player2 matches Some(second) ==> second.left_hand <= MAX_HAND
                && second.right_hand <= MAX_HAND)
        }),
    decreases requests.len(),
{
    let start = GameView::created(session_id, creator, first);
    if requests.len() > 0 {
        lemma_reachable_well_formed(session_id, creator, first, requests.drop_last());
        lemma_request_keeps_well_formed(start.after_all(requests.drop_last()), requests.last());
    }
}

/// A session only moves forward, from waiting over in progress to
/// finished; a finished session accepts no change; and no request changes
/// the identifier of a session.
pub proof fn lemma_request_moves_forward(game: GameView, request: Request)
    requires
        game.well_formed(),
    ensures
        progress(game.state) <= progress(game.after(request).state),
        game.state is Finished ==> game.after(request) == game,
        game.after(request).session_id == game.session_id,
{
}

/// An attack by the player whose turn it is, made with a live hand, is
/// accepted. It adds the count of the striking hand to the opponent's
/// target hand, which drops to zero if the sum reaches `HAND_LIMIT`, and
/// touches no other hand. Then exactly one of two things happens: the game
/// is finished, or the turn passes. The game is finished, with the attacker
/// as the winner, exactly if the opponent is left without a live hand.
pub proof fn lemma_attack(game: GameView, player: Principal, hand: u8, target_hand: u8)
    requires
        game.well_formed(),
        game.state is InProgress,
        game.is_turn_of(player),
        game.active()->0.spec_hand(hand) > 0,
    ensures
        game.attack_verdict(player, hand) is Ok,
        ({
            let striking = game.active()->0.spec_hand(hand);
            let target = game.opponent()->0.spec_hand(target_hand);
            let after = game.attacked(player, hand, target_hand);
            let hit = after.seat(game.current_turn.spec_flipped())->0;
            &&& after.seat(game.current_turn) == game.active()
            &&& after.seat(game.current_turn.spec_flipped()) is Some
            &&& hit.id == game.opponent()->0.id
            &&& hit.spec_hand(target_hand) == if striking + target >= HAND_LIMIT {
                0
            } else {
                striking + target
            }
            &&& hit.spec_other_hand(target_hand) == game.opponent()->0.spec_other_hand(
                target_hand,
            )
            &&& (after.state is Finished) != (after.current_turn != game.current_turn)
            &&& (after.state is Finished <==> hit.spec_is_out())
            &&& (after.state is Finished ==> after.state == GameState::Finished(player))
            &&& (!(after.state is Finished) ==> after.state is InProgress)
            &&& after.session_id == game.session_id
        }),
{
}

/// A redistribution by the player whose turn it is, of no more than the
/// source hand shows, is refused exactly if it would only swap the two
/// hands, and then as a symmetric move. If it is accepted, the source hand
/// loses the transfer and the other hand gains it, wrapping around at
/// five; the opponent, the turn and the state stay as they were.
pub proof fn lemma_redistribute(game: GameView, player: Principal, hand: u8, transfer: u8)
    requires
        game.well_formed(),
        game.state is InProgress,
        game.is_turn_of(player),
        transfer <= game.active()->0.spec_hand(hand),
    ensures
        ({
            let source = game.active()->0.spec_hand(hand);
            let target = game.active()->0.spec_other_hand(hand);
            let symmetric = source - transfer == target && (target + transfer) % 5 == source;
            let verdict = game.redistribute_verdict(player, hand, transfer);
            let after = game.redistributed(player, hand, transfer);
            let moved = after.seat(game.current_turn)->0;
            &&& (verdict == Err::<(), GameError>(GameError::SymmetricMoveForbidden)
                <==> symmetric)
            &&& (verdict is Ok <==> !symmetric)
            &&& (symmetric ==> after == game)
            &&& (!symmetric ==> {
                &&& after.seat(game.current_turn) is Some
                &&& moved.id == player
                &&& moved.spec_hand(hand) == source - transfer
                &&& moved.spec_other_hand(hand) == (target + transfer) % 5
                &&& after.seat(game.current_turn.spec_flipped()) == game.opponent()
                &&& after.current_turn == game.current_turn
                &&& after.state == game.state
                &&& after.session_id == game.session_id
            })
        }),
{
}

/// In a game in progress, a move by anyone but the player whose turn it is
/// is refused as out of turn and changes nothing.
pub proof fn lemma_out_of_turn(
    game: GameView,
    player: Principal,
    hand: u8,
    target_hand: u8,
    transfer: u8,
)
    requires
        game.state is InProgress,
        !game.is_turn_of(player),
    ensures
        game.attack_verdict(player, hand) == Err::<(), GameError>(GameError::NotYourTurn),
        game.attacked(player, hand, target_hand) == game,
        game.redistribute_verdict(player, hand, transfer) == Err::<(), GameError>(
            GameError::NotYourTurn,
        ),
        game.redistributed(player, hand, transfer) == game,
{
}

/// In a session that waits for its second player, or that is finished,
/// every move is refused as not in progress and changes nothing.
pub proof fn lemma_not_in_progress(
    game: GameView,
    player: Principal,
    hand: u8,
    target_hand: u8,
    transfer: u8,
)
    requires
        game.state is WaitingForPlayer || game.state is Finished,
    ensures
        game.attack_verdict(player, hand) == Err::<(), GameError>(GameError::NotInProgress),
        game.attacked(player, hand, target_hand) == game,
        game.redistribute_verdict(player, hand, transfer) == Err::<(), GameError>(
            GameError::NotInProgress,
        ),
        game.redistributed(player, hand, transfer) == game,
{
}

/// Reading is repeatable: whatever `get_game_state` can answer for one
/// registry and one identifier is the same answer, so that reads with no
/// change between them return equal snapshots.
pub proof fn lemma_snapshots_agree(
    registry: SessionRegistry,
    session_id: Seq<char>,
    first: Result<Game, GameError>,
    second: Result<Game, GameError>,
)
    requires
        registry.is_snapshot(session_id, first),
        registry.is_snapshot(session_id, second),
    ensures
        first is Ok <==> second is Ok,
        first is Ok ==> first->Ok_0@ == second->Ok_0@,
        first is Err ==> first->Err_0 == second->Err_0,
{
}

} // verus!
