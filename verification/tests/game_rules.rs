use candid::Principal;
use chopsticks::{Game, GameError, GameState, Player, Turn};

fn alice() -> Principal {
    Principal::from_slice(&[1, 2, 3])
}

fn bob() -> Principal {
    Principal::from_slice(&[4, 5, 6])
}

fn carol() -> Principal {
    Principal::from_slice(&[1, 2, 3, 0])
}

fn player(id: Principal, left: u8, right: u8) -> Player {
    Player { id, left_hand: left, right_hand: right }
}

/// A game in progress with the given hands, `turn` to move.
fn in_progress(creator: (u8, u8), joiner: (u8, u8), turn: Turn) -> Game {
    Game::from_parts(
        "s".to_string(),
        player(alice(), creator.0, creator.1),
        Some(player(bob(), joiner.0, joiner.1)),
        GameState::InProgress,
        turn,
    )
    .unwrap()
}

#[test]
fn new_game_waits_with_one_finger_on_each_hand() {
    let game = Game::new("id-1".to_string(), alice(), true);
    assert_eq!(game.session_id(), "id-1");
    assert_eq!(game.player1(), player(alice(), 1, 1));
    assert_eq!(game.player2(), None);
    assert_eq!(game.state(), GameState::WaitingForPlayer);
    assert!(game.is_well_formed());
}

#[test]
fn coin_decides_who_moves_first() {
    assert_eq!(Game::new("a".to_string(), alice(), true).current_turn(), Turn::Player1);
    assert_eq!(Game::new("a".to_string(), alice(), false).current_turn(), Turn::Player2);
    assert_eq!(Turn::from_coin(true), Turn::Player1);
    assert_eq!(Turn::from_coin(false), Turn::Player2);
    assert_eq!(Turn::Player1.flipped(), Turn::Player2);
    assert_eq!(Turn::Player2.flipped(), Turn::Player1);
}

#[test]
fn join_seats_second_player_and_starts_game() {
    let mut game = Game::new("id-1".to_string(), alice(), true);
    game.join(bob());
    assert_eq!(game.player2(), Some(player(bob(), 1, 1)));
    assert_eq!(game.state(), GameState::InProgress);
    assert_eq!(game.player1(), player(alice(), 1, 1));
    assert_eq!(game.current_turn(), Turn::Player1);
    assert_eq!(game.session_id(), "id-1");
}

#[test]
fn join_is_ignored_once_game_has_started() {
    let mut game = Game::new("id-1".to_string(), alice(), true);
    game.join(bob());
    let before = game.clone();
    game.join(carol());
    assert_eq!(game, before);
}

#[test]
fn join_is_ignored_on_finished_game() {
    let mut game = Game::from_parts(
        "s".to_string(),
        player(alice(), 1, 1),
        Some(player(bob(), 0, 0)),
        GameState::Finished(alice()),
        Turn::Player1,
    )
    .unwrap();
    let before = game.clone();
    game.join(carol());
    assert_eq!(game, before);
}

#[test]
fn creator_may_join_own_game() {
    let mut game = Game::new("id-1".to_string(), alice(), false);
    game.join(alice());
    assert_eq!(game.state(), GameState::InProgress);
    assert_eq!(game.player2(), Some(player(alice(), 1, 1)));
}

#[test]
fn attack_adds_striking_hand_to_target() {
    let mut game = in_progress((2, 1), (1, 1), Turn::Player1);
    assert_eq!(game.make_move_opponent(alice(), 0, 1), Ok(()));
    assert_eq!(game.player2(), Some(player(bob(), 1, 3)));
    assert_eq!(game.player1(), player(alice(), 2, 1));
    assert_eq!(game.current_turn(), Turn::Player2);
    assert_eq!(game.state(), GameState::InProgress);
}

#[test]
fn attack_by_second_player_strikes_first_player() {
    let mut game = in_progress((1, 2), (3, 1), Turn::Player2);
    assert_eq!(game.make_move_opponent(bob(), 1, 0), Ok(()));
    assert_eq!(game.player1(), player(alice(), 2, 2));
    assert_eq!(game.player2(), Some(player(bob(), 3, 1)));
    assert_eq!(game.current_turn(), Turn::Player1);
}

#[test]
fn attack_reaching_exactly_five_kills_hand() {
    let mut game = in_progress((3, 1), (2, 1), Turn::Player1);
    assert_eq!(game.make_move_opponent(alice(), 0, 0), Ok(()));
    assert_eq!(game.player2(), Some(player(bob(), 0, 1)));
    assert_eq!(game.current_turn(), Turn::Player2);
    assert_eq!(game.state(), GameState::InProgress);
}

#[test]
fn attack_above_five_drops_to_zero_not_remainder() {
    let mut game = in_progress((4, 1), (4, 2), Turn::Player1);
    assert_eq!(game.make_move_opponent(alice(), 0, 0), Ok(()));
    assert_eq!(game.player2(), Some(player(bob(), 0, 2)));
}

#[test]
fn attack_sum_of_four_stays() {
    let mut game = in_progress((2, 1), (2, 1), Turn::Player1);
    assert_eq!(game.make_move_opponent(alice(), 0, 0), Ok(()));
    assert_eq!(game.player2(), Some(player(bob(), 4, 1)));
}

#[test]
fn attack_on_dead_hand_revives_it() {
    let mut game = in_progress((2, 1), (0, 1), Turn::Player1);
    assert_eq!(game.make_move_opponent(alice(), 0, 0), Ok(()));
    assert_eq!(game.player2(), Some(player(bob(), 2, 1)));
}

#[test]
fn attack_that_kills_last_hand_finishes_game() {
    let mut game = in_progress((4, 1), (0, 1), Turn::Player1);
    assert_eq!(game.make_move_opponent(alice(), 0, 1), Ok(()));
    assert_eq!(game.player2(), Some(player(bob(), 0, 0)));
    assert_eq!(game.state(), GameState::Finished(alice()));
    // The turn stays with the winner: either the turn passes or the game ends.
    assert_eq!(game.current_turn(), Turn::Player1);
}

#[test]
fn second_player_can_win() {
    let mut game = in_progress((3, 0), (1, 2), Turn::Player2);
    assert_eq!(game.make_move_opponent(bob(), 1, 0), Ok(()));
    assert_eq!(game.player1(), player(alice(), 0, 0));
    assert_eq!(game.state(), GameState::Finished(bob()));
    assert_eq!(game.current_turn(), Turn::Player2);
}

#[test]
fn hand_selector_other_than_zero_is_right_hand() {
    let mut game = in_progress((1, 3), (1, 1), Turn::Player1);
    assert_eq!(game.make_move_opponent(alice(), 7, 9), Ok(()));
    assert_eq!(game.player2(), Some(player(bob(), 1, 4)));
    let p = player(alice(), 2, 3);
    assert_eq!(p.hand(0), 2);
    assert_eq!(p.hand(1), 3);
    assert_eq!(p.hand(200), 3);
    assert_eq!(p.other_hand(0), 3);
    assert_eq!(p.other_hand(1), 2);
    assert_eq!(p.with_hand(0, 4), player(alice(), 4, 3));
    assert_eq!(p.with_hand(1, 0), player(alice(), 2, 0));
    assert_eq!(p.with_other_hand(0, 1), player(alice(), 2, 1));
    assert_eq!(p.with_other_hand(1, 1), player(alice(), 1, 3));
}

#[test]
fn attack_with_dead_hand_is_refused() {
    let mut game = in_progress((0, 2), (1, 1), Turn::Player1);
    let before = game.clone();
    assert_eq!(game.make_move_opponent(alice(), 0, 0), Err(GameError::DeadHand));
    assert_eq!(game, before);
}

#[test]
fn attack_out_of_turn_is_refused() {
    let mut game = in_progress((1, 1), (1, 1), Turn::Player1);
    let before = game.clone();
    assert_eq!(game.make_move_opponent(bob(), 0, 0), Err(GameError::NotYourTurn));
    assert_eq!(game, before);
    assert_eq!(game.make_move_opponent(carol(), 0, 0), Err(GameError::NotYourTurn));
    assert_eq!(game, before);
}

#[test]
fn identities_are_told_apart_by_all_their_bytes() {
    // carol's identity is alice's followed by a zero byte
    let mut game = in_progress((1, 1), (1, 1), Turn::Player1);
    assert_eq!(game.make_move_opponent(carol(), 0, 0), Err(GameError::NotYourTurn));
    assert_eq!(game.make_move_opponent(Principal::from_slice(&[1, 2, 3]), 0, 0), Ok(()));
}

#[test]
fn out_of_turn_is_reported_before_dead_hand() {
    let mut game = in_progress((1, 1), (0, 1), Turn::Player1);
    assert_eq!(game.make_move_opponent(bob(), 0, 0), Err(GameError::NotYourTurn));
}

#[test]
fn moves_on_waiting_game_are_refused() {
    let mut game = Game::new("id-1".to_string(), alice(), true);
    let before = game.clone();
    assert_eq!(game.make_move_opponent(alice(), 0, 0), Err(GameError::NotInProgress));
    assert_eq!(game.make_move_other_hand(alice(), 0, 1), Err(GameError::NotInProgress));
    // not in progress is reported before out of turn
    assert_eq!(game.make_move_opponent(bob(), 0, 0), Err(GameError::NotInProgress));
    assert_eq!(game.make_move_other_hand(bob(), 0, 1), Err(GameError::NotInProgress));
    assert_eq!(game, before);
}

#[test]
fn moves_on_finished_game_are_refused() {
    let mut game = in_progress((4, 1), (0, 1), Turn::Player1);
    assert_eq!(game.make_move_opponent(alice(), 0, 1), Ok(()));
    let before = game.clone();
    assert_eq!(game.make_move_opponent(alice(), 0, 0), Err(GameError::NotInProgress));
    assert_eq!(game.make_move_opponent(bob(), 0, 0), Err(GameError::NotInProgress));
    assert_eq!(game.make_move_other_hand(alice(), 0, 1), Err(GameError::NotInProgress));
    assert_eq!(game, before);
}

#[test]
fn redistribute_moves_count_to_other_hand() {
    let mut game = in_progress((3, 1), (1, 1), Turn::Player1);
    assert_eq!(game.make_move_other_hand(alice(), 0, 1), Ok(()));
    assert_eq!(game.player1(), player(alice(), 2, 2));
    assert_eq!(game.player2(), Some(player(bob(), 1, 1)));
}

#[test]
fn redistribute_from_right_hand() {
    let mut game = in_progress((1, 1), (0, 3), Turn::Player2);
    assert_eq!(game.make_move_other_hand(bob(), 1, 1), Ok(()));
    assert_eq!(game.player2(), Some(player(bob(), 1, 2)));
    assert_eq!(game.player1(), player(alice(), 1, 1));
}

#[test]
fn redistribute_keeps_turn_and_state() {
    let mut game = in_progress((3, 1), (1, 1), Turn::Player1);
    assert_eq!(game.make_move_other_hand(alice(), 0, 1), Ok(()));
    assert_eq!(game.current_turn(), Turn::Player1);
    assert_eq!(game.state(), GameState::InProgress);
    // the same player may move again
    assert_eq!(game.make_move_opponent(alice(), 0, 0), Ok(()));
    assert_eq!(game.current_turn(), Turn::Player2);
}

#[test]
fn redistribute_wraps_around_at_five() {
    let mut game = in_progress((4, 3), (1, 1), Turn::Player1);
    assert_eq!(game.make_move_other_hand(alice(), 0, 3), Ok(()));
    assert_eq!(game.player1(), player(alice(), 1, 1));
}

#[test]
fn redistribute_to_exactly_five_wraps_to_zero() {
    let mut game = in_progress((2, 3), (1, 1), Turn::Player1);
    assert_eq!(game.make_move_other_hand(alice(), 0, 2), Ok(()));
    assert_eq!(game.player1(), player(alice(), 0, 0));
    // no finish check follows a redistribution
    assert_eq!(game.state(), GameState::InProgress);
    assert_eq!(game.current_turn(), Turn::Player1);
}

#[test]
fn redistribute_more_than_hand_holds_is_refused() {
    let mut game = in_progress((2, 1), (1, 1), Turn::Player1);
    let before = game.clone();
    assert_eq!(game.make_move_other_hand(alice(), 0, 3), Err(GameError::InsufficientCount));
    assert_eq!(game.make_move_other_hand(alice(), 1, 2), Err(GameError::InsufficientCount));
    assert_eq!(game.make_move_other_hand(alice(), 0, 255), Err(GameError::InsufficientCount));
    assert_eq!(game, before);
}

#[test]
fn redistribute_that_swaps_hands_is_refused() {
    let mut game = in_progress((3, 1), (1, 1), Turn::Player1);
    let before = game.clone();
    assert_eq!(game.make_move_other_hand(alice(), 0, 2), Err(GameError::SymmetricMoveForbidden));
    assert_eq!(game, before);
}

#[test]
fn redistribute_of_nothing_between_equal_hands_is_refused() {
    let mut game = in_progress((2, 2), (1, 1), Turn::Player1);
    assert_eq!(game.make_move_other_hand(alice(), 0, 0), Err(GameError::SymmetricMoveForbidden));
}

#[test]
fn redistribute_of_nothing_between_unequal_hands_is_accepted() {
    let mut game = in_progress((2, 1), (1, 1), Turn::Player1);
    assert_eq!(game.make_move_other_hand(alice(), 0, 0), Ok(()));
    assert_eq!(game.player1(), player(alice(), 2, 1));
}

#[test]
fn redistribute_swap_through_wraparound_is_refused() {
    // 4 and 0, moving all four: source 0, target 4
    let mut game = in_progress((4, 0), (1, 1), Turn::Player1);
    assert_eq!(game.make_move_other_hand(alice(), 0, 4), Err(GameError::SymmetricMoveForbidden));
}

#[test]
fn redistribute_out_of_turn_is_refused() {
    let mut game = in_progress((3, 1), (3, 1), Turn::Player2);
    let before = game.clone();
    assert_eq!(game.make_move_other_hand(alice(), 0, 1), Err(GameError::NotYourTurn));
    assert_eq!(game, before);
}

#[test]
fn out_of_turn_is_reported_before_insufficient_count() {
    let mut game = in_progress((1, 1), (1, 1), Turn::Player1);
    assert_eq!(game.make_move_other_hand(bob(), 0, 4), Err(GameError::NotYourTurn));
}

#[test]
fn insufficient_count_is_reported_before_symmetric_move() {
    let mut game = in_progress((1, 1), (1, 1), Turn::Player1);
    assert_eq!(game.make_move_other_hand(alice(), 0, 5), Err(GameError::InsufficientCount));
}

#[test]
fn from_parts_accepts_well_formed_games() {
    let game = Game::from_parts(
        "x".to_string(),
        player(alice(), 4, 0),
        Some(player(bob(), 0, 4)),
        GameState::InProgress,
        Turn::Player2,
    )
    .unwrap();
    assert_eq!(game.session_id(), "x");
    assert_eq!(game.player1(), player(alice(), 4, 0));
    assert_eq!(game.player2(), Some(player(bob(), 0, 4)));
    assert_eq!(game.state(), GameState::InProgress);
    assert_eq!(game.current_turn(), Turn::Player2);
    assert!(game.is_well_formed());
    let waiting = Game::from_parts(
        "y".to_string(),
        player(alice(), 1, 1),
        None,
        GameState::WaitingForPlayer,
        Turn::Player1,
    );
    assert_eq!(waiting, Some(Game::new("y".to_string(), alice(), true)));
}

#[test]
fn from_parts_refuses_hand_out_of_range() {
    assert_eq!(
        Game::from_parts(
            "x".to_string(),
            player(alice(), 5, 0),
            Some(player(bob(), 1, 1)),
            GameState::InProgress,
            Turn::Player1,
        ),
        None
    );
    assert_eq!(
        Game::from_parts(
            "x".to_string(),
            player(alice(), 1, 1),
            Some(player(bob(), 1, 9)),
            GameState::InProgress,
            Turn::Player1,
        ),
        None
    );
}

#[test]
fn from_parts_refuses_waiting_game_with_second_player() {
    assert_eq!(
        Game::from_parts(
            "x".to_string(),
            player(alice(), 1, 1),
            Some(player(bob(), 1, 1)),
            GameState::WaitingForPlayer,
            Turn::Player1,
        ),
        None
    );
}

#[test]
fn from_parts_refuses_started_game_without_second_player() {
    assert_eq!(
        Game::from_parts(
            "x".to_string(),
            player(alice(), 1, 1),
            None,
            GameState::InProgress,
            Turn::Player1,
        ),
        None
    );
    assert_eq!(
        Game::from_parts(
            "x".to_string(),
            player(alice(), 1, 1),
            None,
            GameState::Finished(alice()),
            Turn::Player1,
        ),
        None
    );
}

#[test]
fn player_helpers() {
    assert_eq!(Player::fresh(alice()), player(alice(), 1, 1));
    assert!(player(alice(), 0, 0).is_out());
    assert!(!player(alice(), 0, 1).is_out());
    assert!(!player(alice(), 1, 0).is_out());
    assert!(player(alice(), 4, 4).is_well_formed());
    assert!(!player(alice(), 5, 0).is_well_formed());
    assert!(!player(alice(), 0, 5).is_well_formed());
}

#[test]
fn hands_stay_in_range_over_every_attack() {
    for a in 1..=4u8 {
        for t in 0..=4u8 {
            let mut game = in_progress((a, 1), (t, 1), Turn::Player1);
            assert_eq!(game.make_move_opponent(alice(), 0, 0), Ok(()));
            let expected = if a + t >= 5 { 0 } else { a + t };
            assert_eq!(game.player2(), Some(player(bob(), expected, 1)));
            assert!(game.is_well_formed());
            assert_eq!(game.current_turn(), Turn::Player2);
        }
    }
}

#[test]
fn redistribution_follows_its_formula_for_every_hand() {
    for s in 0..=4u8 {
        for t in 0..=4u8 {
            for k in 0..=s {
                let mut game = in_progress((s, t), (1, 1), Turn::Player1);
                let symmetric = s - k == t && (t + k) % 5 == s;
                let done = game.make_move_other_hand(alice(), 0, k);
                if symmetric {
                    assert_eq!(done, Err(GameError::SymmetricMoveForbidden));
                    assert_eq!(game.player1(), player(alice(), s, t));
                } else {
                    assert_eq!(done, Ok(()));
                    assert_eq!(game.player1(), player(alice(), s - k, (t + k) % 5));
                }
                assert!(game.is_well_formed());
                assert_eq!(game.current_turn(), Turn::Player1);
                assert_eq!(game.state(), GameState::InProgress);
            }
        }
    }
}
