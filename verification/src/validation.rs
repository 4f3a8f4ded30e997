//! Admission control: whether a candidate move may be appended, given only
//! the state derived from the moves that precede it.
//!
//! Validation is pure and side-effect free; it never advances the state. It
//! enforces strict turn alternation (player 2 opens the game) and the role
//! table: the suggester must suggest and the predictor must predict, with
//! `Swap` legal for either role at any time. Failure values are strings
//! intended for direct display to the end user.

use vstd::prelude::*;

use crate::game::Game;
use crate::game_move::Move;
use crate::moves::MoveType;
use crate::state::{spec_reduce, GameState, StateView};

verus! {

/// The turn-alternation rule. With at least one applied move, the candidate's
/// author must differ from the most recent author; on an empty history the
/// candidate's author must be player 2.
pub open spec fn turn_check(author: u64, game: Game, s: StateView) -> Result<(), Seq<char>> {
    if s.moves.len() > 0 {
        if s.moves.last().author == author {
            Err("It is not this player turn"@)
        } else {
            Ok(())
        }
    } else {
        if game.player_2 == author {
            Ok(())
        } else {
            Err("Player 2 must start the game"@)
        }
    }
}

/// The role table: the author's required move kind, derived from whether the
/// author is player 2 and which player currently holds the suggester role.
/// `Swap` is legal for either role in either state.
pub open spec fn role_check(
    move_type: MoveType,
    author: u64,
    game: Game,
    s: StateView,
) -> Result<(), Seq<char>> {
    if author == game.player_2 {
        if s.player_2_suggests {
            match move_type {
                MoveType::Suggest { .. } => Ok(()),
                MoveType::Predict { .. } => Err(
                    "Player 2 must suggest, not predict. Use swap to switch roles"@,
                ),
                MoveType::Swap { .. } => Ok(()),
            }
        } else {
            match move_type {
                MoveType::Suggest { .. } => Err("Player 2 must predict, not suggest. Use Swap switch roles"@),
                MoveType::Predict { .. } => Ok(()),
                MoveType::Swap { .. } => Ok(()),
            }
        }
    } else {
        if s.player_2_suggests {
            match move_type {
                MoveType::Suggest { .. } => Err("Player 1 must predict not suggest. Use swap switch roles"@),
                MoveType::Predict { .. } => Ok(()),
                MoveType::Swap { .. } => Ok(()),
            }
        } else {
            match move_type {
                MoveType::Suggest { .. } => Ok(()),
                MoveType::Predict { .. } => Err("Player 1 must suggest not predict. Use swap to switch roles"@),
                MoveType::Swap { .. } => Ok(()),
            }
        }
    }
}

/// Full validity of a candidate move against the state derived from the moves
/// that precede it: the turn check first, then the role check.
pub open spec fn move_validity(m: Move, game: Game, s: StateView) -> Result<(), Seq<char>> {
    match turn_check(m.author, game, s) {
        Err(reason) => Err(reason),
        Ok(()) => role_check(m.move_type, m.author, game, s),
    }
}

/// An executable result mirrors a specification result: success for success,
/// and the very same reason for failure.
pub open spec fn reason_matches(r: Result<(), String>, s: Result<(), Seq<char>>) -> bool {
    match (r, s) {
        (Ok(()), Ok(())) => true,
        (Err(actual), Err(expected)) => actual@ == expected,
        _ => false,
    }
}

/// Step 1 of validation: the turn-alternation rule. Returns the author back
/// on success, so the caller can feed it to the role check.
fn is_players_turn(player: u64, game: &Game, game_state: &GameState) -> (r: Result<u64, String>)
    ensures
        match (r, turn_check(player, *game, game_state@)) {
            (Ok(p), Ok(())) => p == player,
            (Err(actual), Err(expected)) => actual@ == expected,
            _ => false,
        },
{
    let n = game_state.moves.len();
    if n > 0 {
        let last_move = &game_state.moves[n - 1];
        if last_move.author == player {
            Err(String::from_str("It is not this player turn"))
        } else {
            Ok(player)
        }
    } else {
        if game.player_2 == player {
            Ok(player)
        } else {
            Err(String::from_str("Player 2 must start the game"))
        }
    }
}

/// Step 2 of validation: the role table of `role_check`.
fn is_the_right_move(
    game_state: &GameState,
    move_type: &MoveType,
    player: u64,
    game: &Game,
) -> (r: Result<(), String>)
    ensures
        reason_matches(r, role_check(*move_type, player, *game, game_state@)),
{
    let player_2_suggest = game_state.player_2_suggests;
    if player == game.player_2 {
        if player_2_suggest {
            match move_type {
                MoveType::Suggest { .. } => Ok(()),
                MoveType::Predict { .. } => Err(
                    String::from_str("Player 2 must suggest, not predict. Use swap to switch roles"),
                ),
                MoveType::Swap { .. } => Ok(()),
            }
        } else {
            match move_type {
                MoveType::Suggest { .. } => Err(
                    String::from_str("Player 2 must predict, not suggest. Use Swap switch roles"),
                ),
                MoveType::Predict { .. } => Ok(()),
                MoveType::Swap { .. } => Ok(()),
            }
        }
    } else {
        if player_2_suggest {
            match move_type {
                MoveType::Suggest { .. } => Err(
                    String::from_str("Player 1 must predict not suggest. Use swap switch roles"),
                ),
                MoveType::Predict { .. } => Ok(()),
                MoveType::Swap { .. } => Ok(()),
            }
        } else {
            match move_type {
                MoveType::Suggest { .. } => Ok(()),
                MoveType::Predict { .. } => Err(
                    String::from_str("Player 1 must suggest not predict. Use swap to switch roles"),
                ),
                MoveType::Swap { .. } => Ok(()),
            }
        }
    }
}

impl Move {
    /// Decide whether this candidate move may be admitted, given the game and
    /// the state derived from the moves that precede the candidate. Never
    /// mutates anything; returns `Ok(())` exactly when both the turn rule and
    /// the role rule accept the candidate, and a display reason otherwise.
    pub fn is_valid(&self, game: Game, game_state: GameState) -> (r: Result<(), String>)
        ensures
            reason_matches(r, move_validity(*self, game, game_state@)),
    {
        let author = self.author;
        match is_players_turn(author, &game, &game_state) {
            Err(reason) => Err(reason),
            Ok(player) => is_the_right_move(&game_state, &self.move_type, player, &game),
        }
    }
}

/// A history is accepted when every one of its moves was accepted by the
/// validator against the state derived from the moves before it.
pub open spec fn accepted_history(game: Game, moves: Seq<Move>) -> bool {
    forall|i: int|
        0 <= i < moves.len() ==> #[trigger] move_validity(
            moves[i],
            game,
            spec_reduce(game, moves.take(i)),
        ) is Ok
}

/// The empty history is accepted: a fresh game has nothing to violate.
pub proof fn lemma_empty_history_accepted(game: Game)
    ensures
        accepted_history(game, Seq::empty()),
{
}

/// Admitting an accepted candidate extends an accepted history: a history
/// grown move by move through the validator is accepted as a whole.
pub proof fn lemma_accepted_extension(game: Game, moves: Seq<Move>, candidate: Move)
    requires
        accepted_history(game, moves),
        move_validity(candidate, game, spec_reduce(game, moves)) is Ok,
    ensures
        accepted_history(game, moves.push(candidate)),
{
    let extended = moves.push(candidate);
    assert forall|i: int| 0 <= i < extended.len() implies #[trigger] move_validity(
        extended[i],
        game,
        spec_reduce(game, extended.take(i)),
    ) is Ok by {
        if i < moves.len() {
            assert(extended.take(i) =~= moves.take(i));
            assert(extended[i] == moves[i]);
            assert(move_validity(moves[i], game, spec_reduce(game, moves.take(i))) is Ok);
        } else {
            assert(extended.take(i) =~= moves);
            assert(extended[i] == candidate);
        }
    }
}

/// Alternation invariant: in an accepted history, no two consecutive moves
/// share an author.
pub proof fn lemma_alternation(game: Game, moves: Seq<Move>, i: int)
    requires
        accepted_history(game, moves),
        0 <= i < moves.len() - 1,
    ensures
        moves[i].author != moves[i + 1].author,
{
    let prior = spec_reduce(game, moves.take(i + 1));
    assert(move_validity(moves[i + 1], game, prior) is Ok);
    crate::state::lemma_reduce_moves(game, moves.take(i + 1));
    assert(prior.moves.len() == i + 1);
    assert(prior.moves.last() == moves[i]);
}

/// Opening invariant: in a non-empty accepted history, the first move's
/// author is player 2.
pub proof fn lemma_opening(game: Game, moves: Seq<Move>)
    requires
        accepted_history(game, moves),
        moves.len() > 0,
    ensures
        moves[0].author == game.player_2,
{
    let prior = spec_reduce(game, moves.take(0));
    assert(move_validity(moves[0], game, prior) is Ok);
    crate::state::lemma_reduce_moves(game, moves.take(0));
    assert(prior.moves.len() == 0);
}

/// What the role table allows: `Swap` always; `Suggest` exactly when the
/// author holds the suggester role; `Predict` exactly when the author holds
/// the predictor role.
pub open spec fn role_allows(move_type: MoveType, author_is_player_2: bool, player_2_suggests: bool) -> bool {
    match move_type {
        MoveType::Suggest { .. } => author_is_player_2 == player_2_suggests,
        MoveType::Predict { .. } => author_is_player_2 != player_2_suggests,
        MoveType::Swap { .. } => true,
    }
}

/// Role invariant: every move of an accepted history matches the role table
/// at the time it was validated.
pub proof fn lemma_role(game: Game, moves: Seq<Move>, i: int)
    requires
        accepted_history(game, moves),
        0 <= i < moves.len(),
    ensures
        role_allows(
            moves[i].move_type,
            moves[i].author == game.player_2,
            spec_reduce(game, moves.take(i)).player_2_suggests,
        ),
{
    let prior = spec_reduce(game, moves.take(i));
    assert(move_validity(moves[i], game, prior) is Ok);
}

} // verus!
