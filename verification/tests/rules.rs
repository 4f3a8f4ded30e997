//! Admission control: the turn and role rules on candidate moves, and the
//! lifecycle rules on game and move records.

use guessing_game::entries::{ChainEntry, Entry, EntryOp, Error};
use guessing_game::game::{validate_game_entry, Game};
use guessing_game::game_move::{validate_move_entry, Move};
use guessing_game::moves::MoveType;
use guessing_game::state::{reduce, GameState};

const P1: u64 = 101;
const P2: u64 = 202;
const GAME_ADDR: u64 = 100;

fn game() -> Game {
    Game { player_1: P1, player_2: P2, created_at: 0 }
}

fn mv(author: u64, move_type: MoveType, previous_move: u64, timestamp: u32) -> Move {
    Move { game: GAME_ADDR, author, move_type, previous_move, timestamp }
}

fn state_after(moves: Vec<Move>) -> GameState {
    reduce(&game(), &moves)
}

#[test]
fn player_1_cannot_open_the_game() {
    let candidate = mv(P1, MoveType::Suggest { suggestion: 1 }, GAME_ADDR, 1);
    let verdict = candidate.is_valid(game(), GameState::initial());
    assert_eq!(verdict, Err("Player 2 must start the game".to_string()));
}

#[test]
fn player_2_opens_with_a_suggestion() {
    let candidate = mv(P2, MoveType::Suggest { suggestion: 3 }, GAME_ADDR, 1);
    let verdict = candidate.is_valid(game(), GameState::initial());
    assert_eq!(verdict, Ok(()));
    let state = state_after(vec![candidate]);
    assert_eq!(state.suggestion, 3);
    assert_eq!(state.player_2_suggestion_attempts, 1);
    assert_eq!(state.player_1_suggestion_attempts, 0);
    assert_eq!(state.player_2_successful_suggestion, 0);
    assert_eq!(state.player_1_successful_suggestion, 0);
    assert_eq!(state.player_1_successful_prediction, 0);
    assert_eq!(state.player_2_successful_prediction, 0);
    assert_eq!(state.player_1_prediction_attempts, 0);
    assert_eq!(state.player_2_prediction_attempts, 0);
    assert!(state.player_2_suggests);
}

#[test]
fn player_1_predicts_after_the_opening_suggestion() {
    let opening = mv(P2, MoveType::Suggest { suggestion: 3 }, GAME_ADDR, 1);
    let candidate = mv(P1, MoveType::Predict { prediction: 3 }, 1, 2);
    let verdict = candidate.is_valid(game(), state_after(vec![opening]));
    assert_eq!(verdict, Ok(()));
    let state = state_after(vec![opening, candidate]);
    assert_eq!(state.suggestion, 3);
    assert_eq!(state.player_1_successful_prediction, 1);
    assert_eq!(state.player_1_prediction_attempts, 1);
}

#[test]
fn player_2_cannot_move_twice_in_a_row() {
    let opening = mv(P2, MoveType::Suggest { suggestion: 3 }, GAME_ADDR, 1);
    let candidate = mv(P2, MoveType::Predict { prediction: 5 }, 1, 2);
    let verdict = candidate.is_valid(game(), state_after(vec![opening]));
    assert_eq!(verdict, Err("It is not this player turn".to_string()));
}

#[test]
fn the_suggester_cannot_predict() {
    // Fresh game, player 2 holds the suggester role: a prediction by player 2
    // is a role mismatch.
    let candidate = mv(P2, MoveType::Predict { prediction: 5 }, GAME_ADDR, 1);
    let verdict = candidate.is_valid(game(), GameState::initial());
    assert_eq!(
        verdict,
        Err("Player 2 must suggest, not predict. Use swap to switch roles".to_string())
    );
}

#[test]
fn the_predictor_cannot_suggest() {
    let opening = mv(P2, MoveType::Suggest { suggestion: 3 }, GAME_ADDR, 1);
    let candidate = mv(P1, MoveType::Suggest { suggestion: 8 }, 1, 2);
    let verdict = candidate.is_valid(game(), state_after(vec![opening]));
    assert_eq!(
        verdict,
        Err("Player 1 must predict not suggest. Use swap switch roles".to_string())
    );
}

#[test]
fn swapped_roles_reverse_the_requirements() {
    // After a swap on an otherwise fresh game, player 1 must suggest.
    let swapped = state_after(vec![mv(P2, MoveType::Swap {}, GAME_ADDR, 1)]);
    let suggest_by_p1 = mv(P1, MoveType::Suggest { suggestion: 9 }, 1, 2);
    assert_eq!(suggest_by_p1.is_valid(game(), swapped), Ok(()));

    // After a full round and a swap by player 2, the role table now requires
    // a suggestion from player 1.
    let history = vec![
        mv(P2, MoveType::Suggest { suggestion: 3 }, GAME_ADDR, 1),
        mv(P1, MoveType::Predict { prediction: 3 }, 1, 2),
        mv(P2, MoveType::Swap {}, 2, 3),
    ];
    let state = state_after(history);
    assert!(!state.player_2_suggests);
    let candidate = mv(P1, MoveType::Suggest { suggestion: 9 }, 3, 4);
    assert_eq!(candidate.is_valid(game(), state), Ok(()));
}

#[test]
fn swap_is_accepted_for_either_role() {
    let history = vec![
        mv(P2, MoveType::Suggest { suggestion: 3 }, GAME_ADDR, 1),
        mv(P1, MoveType::Predict { prediction: 3 }, 1, 2),
    ];
    let candidate = mv(P2, MoveType::Swap {}, 2, 3);
    assert_eq!(candidate.is_valid(game(), state_after(history.clone())), Ok(()));
    let mut extended = history;
    extended.push(candidate);
    let state = state_after(extended);
    assert!(!state.player_2_suggests);
}

#[test]
fn creating_a_game_with_one_player_on_both_sides_fails() {
    let bad = Game { player_1: P1, player_2: P1, created_at: 0 };
    let verdict = validate_game_entry(&EntryOp::Create { entry: bad });
    assert_eq!(
        verdict,
        Err(Error::ValidationError(
            "Player 1 and Player 2 must be different agents.".to_string()
        ))
    );
}

#[test]
fn creating_a_game_with_two_players_succeeds() {
    let verdict = validate_game_entry(&EntryOp::Create { entry: game() });
    assert_eq!(verdict, Ok(()));
}

#[test]
fn a_committed_game_cannot_be_modified_or_deleted() {
    let expected = Err(Error::ValidationError("Cannot modify or delete a game".to_string()));
    assert_eq!(validate_game_entry(&EntryOp::<Game>::Modify), expected);
    assert_eq!(validate_game_entry(&EntryOp::<Game>::Delete), expected);
}

#[test]
fn a_committed_move_cannot_be_modified_or_deleted() {
    let expected = Err(Error::ValidationError("Cannot modify or delete a move".to_string()));
    assert_eq!(validate_move_entry(&EntryOp::<Move>::Modify, 0, &None), expected);
    assert_eq!(validate_move_entry(&EntryOp::<Move>::Delete, 0, &None), expected);
}

#[test]
fn move_creation_without_a_source_chain_fails() {
    let candidate = mv(P2, MoveType::Suggest { suggestion: 3 }, GAME_ADDR, 1);
    let verdict = validate_move_entry(&EntryOp::Create { entry: candidate }, 11, &None);
    assert_eq!(
        verdict,
        Err(Error::ValidationError("Could not retrieve source chain".to_string()))
    );
}

#[test]
fn move_creation_validates_against_the_log_without_the_candidate() {
    // The candidate is already in the author's log when validation runs: it
    // must be excluded by its address, or the opening move would be judged
    // against a state in which it already happened (and fail the turn rule).
    let candidate = mv(P2, MoveType::Suggest { suggestion: 3 }, GAME_ADDR, 1);
    let log = vec![
        ChainEntry { address: 11, entry: Entry::Move(candidate) },
        ChainEntry { address: GAME_ADDR, entry: Entry::Game(game()) },
    ];
    let verdict = validate_move_entry(&EntryOp::Create { entry: candidate }, 11, &Some(log));
    assert_eq!(verdict, Ok(()));
}

#[test]
fn move_creation_rejects_a_wrong_turn_found_in_the_log() {
    let opening = mv(P2, MoveType::Suggest { suggestion: 3 }, GAME_ADDR, 1);
    let candidate = mv(P2, MoveType::Suggest { suggestion: 4 }, 11, 2);
    let log = vec![
        ChainEntry { address: 12, entry: Entry::Move(candidate) },
        ChainEntry { address: 11, entry: Entry::Move(opening) },
        ChainEntry { address: GAME_ADDR, entry: Entry::Game(game()) },
    ];
    let verdict = validate_move_entry(&EntryOp::Create { entry: candidate }, 12, &Some(log));
    assert_eq!(
        verdict,
        Err(Error::ValidationError("It is not this player turn".to_string()))
    );
}

#[test]
fn move_creation_with_a_log_missing_the_game_fails() {
    let candidate = mv(P2, MoveType::Suggest { suggestion: 3 }, GAME_ADDR, 1);
    let log = vec![ChainEntry { address: 11, entry: Entry::Move(candidate) }];
    let verdict = validate_move_entry(&EntryOp::Create { entry: candidate }, 11, &Some(log));
    assert_eq!(verdict, Err(Error::NotFound));
}
