//! The state reducer: determinism, order sensitivity, exact transition
//! semantics, and the rendered summary.

use guessing_game::game::Game;
use guessing_game::game_move::Move;
use guessing_game::moves::MoveType;
use guessing_game::state::{reduce, GameState};

const P1: u64 = 101;
const P2: u64 = 202;

fn game() -> Game {
    Game { player_1: P1, player_2: P2, created_at: 0 }
}

fn mv(author: u64, move_type: MoveType, previous_move: u64, timestamp: u32) -> Move {
    Move { game: 100, author, move_type, previous_move, timestamp }
}

#[test]
fn initial_state_is_empty() {
    let state = GameState::initial();
    assert_eq!(state.moves.len(), 0);
    assert_eq!(state.suggestion, 0);
    assert_eq!(state.player_1_successful_suggestion, 0);
    assert_eq!(state.player_1_successful_prediction, 0);
    assert_eq!(state.player_1_suggestion_attempts, 0);
    assert_eq!(state.player_1_prediction_attempts, 0);
    assert_eq!(state.player_2_successful_suggestion, 0);
    assert_eq!(state.player_2_successful_prediction, 0);
    assert_eq!(state.player_2_suggestion_attempts, 0);
    assert_eq!(state.player_2_prediction_attempts, 0);
    assert!(state.player_2_suggests);
}

#[test]
fn reduce_is_deterministic() {
    let moves = vec![
        mv(P2, MoveType::Suggest { suggestion: 3 }, 100, 1),
        mv(P1, MoveType::Predict { prediction: 3 }, 1, 2),
        mv(P2, MoveType::Swap {}, 2, 3),
        mv(P1, MoveType::Suggest { suggestion: 9 }, 3, 4),
    ];
    let first = reduce(&game(), &moves);
    let second = reduce(&game(), &moves);
    assert_eq!(first, second);
}

#[test]
fn reduce_is_order_sensitive() {
    let suggest = mv(P2, MoveType::Suggest { suggestion: 3 }, 100, 1);
    let predict = mv(P1, MoveType::Predict { prediction: 3 }, 1, 2);
    let in_order = reduce(&game(), &vec![suggest, predict]);
    let reversed = reduce(&game(), &vec![predict, suggest]);
    assert_ne!(in_order, reversed);
    // In order, the prediction matches the suggestion and is credited to the
    // predictor; reversed, the prediction runs against suggestion 0, misses,
    // and credits the opponent's suggestion tally instead.
    assert_eq!(in_order.player_1_successful_prediction, 1);
    assert_eq!(in_order.player_2_successful_suggestion, 0);
    assert_eq!(reversed.player_1_successful_prediction, 0);
    assert_eq!(reversed.player_2_successful_suggestion, 1);
}

#[test]
fn suggestion_sets_value_and_counts_attempt() {
    let moves = vec![mv(P2, MoveType::Suggest { suggestion: 3 }, 100, 1)];
    let state = reduce(&game(), &moves);
    assert_eq!(state.suggestion, 3);
    assert_eq!(state.player_2_suggestion_attempts, 1);
    assert_eq!(state.player_1_suggestion_attempts, 0);
    assert_eq!(state.player_2_successful_suggestion, 0);
    assert!(state.player_2_suggests);
    assert_eq!(state.moves.len(), 1);
}

#[test]
fn matching_prediction_credits_the_predictor() {
    let moves = vec![
        mv(P2, MoveType::Suggest { suggestion: 3 }, 100, 1),
        mv(P1, MoveType::Predict { prediction: 3 }, 1, 2),
    ];
    let state = reduce(&game(), &moves);
    assert_eq!(state.suggestion, 3);
    assert_eq!(state.player_1_successful_prediction, 1);
    assert_eq!(state.player_1_prediction_attempts, 1);
    assert_eq!(state.player_2_successful_suggestion, 0);
    assert_eq!(state.player_2_prediction_attempts, 0);
}

#[test]
fn missed_prediction_credits_the_suggester() {
    let moves = vec![
        mv(P2, MoveType::Suggest { suggestion: 3 }, 100, 1),
        mv(P1, MoveType::Predict { prediction: 7 }, 1, 2),
    ];
    let state = reduce(&game(), &moves);
    assert_eq!(state.player_1_successful_prediction, 0);
    assert_eq!(state.player_1_prediction_attempts, 1);
    assert_eq!(state.player_2_successful_suggestion, 1);
}

#[test]
fn prediction_by_player_2_uses_its_own_counters() {
    let moves = vec![
        mv(P2, MoveType::Swap {}, 100, 1),
        mv(P1, MoveType::Suggest { suggestion: 5 }, 1, 2),
        mv(P2, MoveType::Predict { prediction: 5 }, 2, 3),
    ];
    let state = reduce(&game(), &moves);
    assert_eq!(state.player_2_successful_prediction, 1);
    assert_eq!(state.player_2_prediction_attempts, 1);
    assert_eq!(state.player_1_suggestion_attempts, 1);
    assert_eq!(state.player_1_successful_suggestion, 0);
}

#[test]
fn each_prediction_attempt_counter_tracks_its_own_player() {
    // Two matched rounds for player 1, none for player 2: the counters must
    // not bleed into each other.
    let moves = vec![
        mv(P2, MoveType::Suggest { suggestion: 1 }, 100, 1),
        mv(P1, MoveType::Predict { prediction: 1 }, 1, 2),
        mv(P2, MoveType::Suggest { suggestion: 2 }, 2, 3),
        mv(P1, MoveType::Predict { prediction: 2 }, 3, 4),
    ];
    let state = reduce(&game(), &moves);
    assert_eq!(state.player_1_prediction_attempts, 2);
    assert_eq!(state.player_2_prediction_attempts, 0);
}

#[test]
fn swap_toggles_the_suggester_role() {
    let once = reduce(&game(), &vec![mv(P2, MoveType::Swap {}, 100, 1)]);
    assert!(!once.player_2_suggests);
    let twice = reduce(
        &game(),
        &vec![mv(P2, MoveType::Swap {}, 100, 1), mv(P1, MoveType::Swap {}, 1, 2)],
    );
    assert!(twice.player_2_suggests);
}

#[test]
fn prediction_by_a_stranger_changes_no_counter() {
    let stranger: u64 = 999;
    let moves = vec![
        mv(P2, MoveType::Suggest { suggestion: 3 }, 100, 1),
        mv(stranger, MoveType::Predict { prediction: 3 }, 1, 2),
    ];
    let state = reduce(&game(), &moves);
    assert_eq!(state.player_1_prediction_attempts, 0);
    assert_eq!(state.player_2_prediction_attempts, 0);
    assert_eq!(state.player_1_successful_prediction, 0);
    assert_eq!(state.player_2_successful_prediction, 0);
    assert_eq!(state.moves.len(), 2);
}

#[test]
fn evolve_appends_the_move_and_leaves_the_input_alone() {
    let state = GameState::initial();
    let m = mv(P2, MoveType::Suggest { suggestion: 4 }, 100, 1);
    let next = state.evolve(game(), &m);
    assert_eq!(state.moves.len(), 0);
    assert_eq!(next.moves, vec![m]);
    assert_eq!(next.suggestion, 4);
}

#[test]
fn describe_lists_one_example_of_each_move_kind() {
    let examples = MoveType::describe();
    assert_eq!(
        examples,
        vec![
            MoveType::Suggest { suggestion: 0 },
            MoveType::Predict { prediction: 0 },
            MoveType::Swap {},
        ]
    );
}

#[test]
fn render_of_the_initial_state() {
    let state = GameState::initial();
    let text = state.render(&game());
    assert_eq!(
        text,
        " Waiting for player 2 to suggest a number \nplayer 1 record: \n\tsuggestion: 0/0 \n\tprediction: 0/0 \nplayer 2 record: \n\tsuggestion: 0/0 \n\tprediction: 0/0\n"
    );
}

#[test]
fn render_reports_turn_and_multi_digit_tallies() {
    let mut state = GameState::initial();
    state.moves.push(mv(P1, MoveType::Predict { prediction: 3 }, 1, 2));
    state.suggestion = 3;
    state.player_1_successful_prediction = 12;
    state.player_1_prediction_attempts = 30;
    state.player_2_successful_suggestion = 18;
    state.player_2_suggestion_attempts = 30;
    let text = state.render(&game());
    assert_eq!(
        text,
        " Waiting for player 2 to suggest a number... \nplayer 1 record: \n\tsuggestion: 0/0 \n\tprediction: 12/30 \nplayer 2 record: \n\tsuggestion: 18/30 \n\tprediction: 0/0\n"
    );
}

#[test]
fn render_when_player_2_moved_last_and_roles_are_swapped() {
    let moves = vec![
        mv(P2, MoveType::Suggest { suggestion: 3 }, 100, 1),
        mv(P1, MoveType::Predict { prediction: 3 }, 1, 2),
        mv(P2, MoveType::Swap {}, 2, 3),
    ];
    let state = reduce(&game(), &moves);
    let text = state.render(&game());
    assert!(text.starts_with(" Waiting for player 1 to suggest a number..."));
}
