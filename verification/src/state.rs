//! The derived game state and the deterministic reducer that computes it.
//!
//! A `GameState` is never stored: it is recomputed on demand by folding an
//! ordered move sequence (produced by one of the two resolvers in
//! [`crate::game`]) into the initial state, one transition per move.

use vstd::prelude::*;

use crate::game::Game;
use crate::game_move::Move;
use crate::moves::MoveType;

verus! {

/// Mathematical model of a [`GameState`]: the same fields, with unbounded
/// integers for the counters and a sequence for the applied moves.
#[verifier::ext_equal]
pub struct StateView {
    pub moves: Seq<Move>,
    pub suggestion: int,
    pub player_1_successful_suggestion: int,
    pub player_1_successful_prediction: int,
    pub player_1_suggestion_attempts: int,
    pub player_1_prediction_attempts: int,
    pub player_2_successful_suggestion: int,
    pub player_2_successful_prediction: int,
    pub player_2_suggestion_attempts: int,
    pub player_2_prediction_attempts: int,
    pub player_2_suggests: bool,
}

/// The state of a game before any move: no moves, suggestion 0, all counters
/// 0, and player 2 holding the suggester role.
pub open spec fn initial_view() -> StateView {
    StateView {
        moves: Seq::empty(),
        suggestion: 0,
        player_1_successful_suggestion: 0,
        player_1_successful_prediction: 0,
        player_1_suggestion_attempts: 0,
        player_1_prediction_attempts: 0,
        player_2_successful_suggestion: 0,
        player_2_successful_prediction: 0,
        player_2_suggestion_attempts: 0,
        player_2_prediction_attempts: 0,
        player_2_suggests: true,
    }
}

/// The state transition of a single move.
///
/// * `Suggest` records the suggested number and counts a suggestion attempt
///   for the author.
/// * `Predict` counts a prediction attempt for the author; a correct
///   prediction is credited to the author's successful predictions, a wrong
///   one to the opponent's successful suggestions. A move authored by neither
///   player changes no counter.
/// * `Swap` toggles which player holds the suggester role.
///
/// Every move is appended to the applied-move list. Each counter is carried
/// over from its own prior value. The transition performs no legality
/// checking: it assumes the move was already admitted by the validator.
pub open spec fn spec_evolve(game: Game, s: StateView, m: Move) -> StateView {
    let pushed = StateView { moves: s.moves.push(m), ..s };
    match m.move_type {
        MoveType::Suggest { suggestion } => {
            if game.player_1 == m.author {
                StateView {
                    suggestion: suggestion as int,
                    player_1_suggestion_attempts: s.player_1_suggestion_attempts + 1,
                    ..pushed
                }
            } else {
                StateView {
                    suggestion: suggestion as int,
                    player_2_suggestion_attempts: s.player_2_suggestion_attempts + 1,
                    ..pushed
                }
            }
        },
        MoveType::Predict { prediction } => {
            if game.player_1 == m.author {
                if s.suggestion == prediction as int {
                    StateView {
                        player_1_successful_prediction: s.player_1_successful_prediction + 1,
                        player_1_prediction_attempts: s.player_1_prediction_attempts + 1,
                        ..pushed
                    }
                } else {
                    StateView {
                        player_2_successful_suggestion: s.player_2_successful_suggestion + 1,
                        player_1_prediction_attempts: s.player_1_prediction_attempts + 1,
                        ..pushed
                    }
                }
            } else if game.player_2 == m.author {
                if s.suggestion == prediction as int {
                    StateView {
                        player_2_successful_prediction: s.player_2_successful_prediction + 1,
                        player_2_prediction_attempts: s.player_2_prediction_attempts + 1,
                        ..pushed
                    }
                } else {
                    StateView {
                        player_1_successful_suggestion: s.player_1_successful_suggestion + 1,
                        player_2_prediction_attempts: s.player_2_prediction_attempts + 1,
                        ..pushed
                    }
                }
            } else {
                pushed
            }
        },
        MoveType::Swap {  } => StateView { player_2_suggests: !s.player_2_suggests, ..pushed },
    }
}

/// Left fold of `spec_evolve` over an ordered move sequence, starting from the
/// initial state.
pub open spec fn spec_reduce(game: Game, moves: Seq<Move>) -> StateView
    decreases moves.len(),
{
    if moves.len() == 0 {
        initial_view()
    } else {
        spec_evolve(game, spec_reduce(game, moves.drop_last()), moves.last())
    }
}

/// The machine can represent the state after one more move: the move list and
/// the one counter the move increments are below `usize::MAX`.
pub open spec fn evolve_fits(s: StateView, game: Game, m: Move) -> bool {
    &&& s.moves.len() < usize::MAX
    &&& match m.move_type {
        MoveType::Suggest { .. } => {
            if game.player_1 == m.author {
                s.player_1_suggestion_attempts < usize::MAX
            } else {
                s.player_2_suggestion_attempts < usize::MAX
            }
        },
        MoveType::Predict { prediction } => {
            if game.player_1 == m.author {
                &&& s.player_1_prediction_attempts < usize::MAX
                &&& if s.suggestion == prediction as int {
                    s.player_1_successful_prediction < usize::MAX
                } else {
                    s.player_2_successful_suggestion < usize::MAX
                }
            } else if game.player_2 == m.author {
                &&& s.player_2_prediction_attempts < usize::MAX
                &&& if s.suggestion == prediction as int {
                    s.player_2_successful_prediction < usize::MAX
                } else {
                    s.player_1_successful_suggestion < usize::MAX
                }
            } else {
                true
            }
        },
        MoveType::Swap { .. } => true,
    }
}

/// Every counter of `s` is at most `n`, and `n` moves have been applied.
/// Holds of every state reached by folding `n` moves from the initial state,
/// and rules out counter overflow while folding.
spec fn counters_within(s: StateView, n: int) -> bool {
    &&& s.moves.len() == n
    &&& 0 <= s.player_1_successful_suggestion <= n
    &&& 0 <= s.player_1_successful_prediction <= n
    &&& 0 <= s.player_1_suggestion_attempts <= n
    &&& 0 <= s.player_1_prediction_attempts <= n
    &&& 0 <= s.player_2_successful_suggestion <= n
    &&& 0 <= s.player_2_successful_prediction <= n
    &&& 0 <= s.player_2_suggestion_attempts <= n
    &&& 0 <= s.player_2_prediction_attempts <= n
}

/// A derived, non-persistent aggregate recomputed from a game and an ordered
/// move sequence. It has no identity and no owner beyond the caller that
/// requested it.
#[derive(Clone, Debug, PartialEq, Eq)]
pub struct GameState {
    pub moves: Vec<Move>,
    pub suggestion: usize,
    pub player_1_successful_suggestion: usize,
    pub player_1_successful_prediction: usize,
    pub player_1_suggestion_attempts: usize,
    pub player_1_prediction_attempts: usize,
    pub player_2_successful_suggestion: usize,
    pub player_2_successful_prediction: usize,
    pub player_2_suggestion_attempts: usize,
    pub player_2_prediction_attempts: usize,
    pub player_2_suggests: bool,
}

impl View for GameState {
    type V = StateView;

    open spec fn view(&self) -> StateView {
        StateView {
            moves: self.moves@,
            suggestion: self.suggestion as int,
            player_1_successful_suggestion: self.player_1_successful_suggestion as int,
            player_1_successful_prediction: self.player_1_successful_prediction as int,
            player_1_suggestion_attempts: self.player_1_suggestion_attempts as int,
            player_1_prediction_attempts: self.player_1_prediction_attempts as int,
            player_2_successful_suggestion: self.player_2_successful_suggestion as int,
            player_2_successful_prediction: self.player_2_successful_prediction as int,
            player_2_suggestion_attempts: self.player_2_suggestion_attempts as int,
            player_2_prediction_attempts: self.player_2_prediction_attempts as int,
            player_2_suggests: self.player_2_suggests,
        }
    }
}

impl GameState {
    /// The initial state: empty move list, suggestion 0, all counters 0, and
    /// player 2 holding the suggester role.
    pub fn initial() -> (state: GameState)
        ensures
            state@ == initial_view(),
    {
        let state = GameState {
            moves: Vec::new(),
            suggestion: 0,
            player_1_successful_suggestion: 0,
            player_1_successful_prediction: 0,
            player_1_suggestion_attempts: 0,
            player_1_prediction_attempts: 0,
            player_2_successful_suggestion: 0,
            player_2_successful_prediction: 0,
            player_2_suggestion_attempts: 0,
            player_2_prediction_attempts: 0,
            player_2_suggests: true,
        };
        proof {
            assert(state@ =~= initial_view());
        }
        state
    }

    /// Given a current state, the game and one move, compute the next state.
    /// Assumes the move was already admitted by the validator.
    pub fn evolve(&self, game: Game, next_move: &Move) -> (next: GameState)
        requires
            evolve_fits(self@, game, *next_move),
        ensures
            next@ == spec_evolve(game, self@, *next_move),
    {
        let mut moves: Vec<Move> = Vec::new();
        let mut i: usize = 0;
        while i < self.moves.len()
            invariant
                i <= self.moves.len(),
                moves@ == self.moves@.take(i as int),
            decreases self.moves.len() - i,
        {
            moves.push(self.moves[i]);
            proof {
                assert(self.moves@.take(i + 1) =~= self.moves@.take(i as int).push(self.moves@[i as int]));
            }
            i = i + 1;
        }
        proof {
            assert(moves@ =~= self.moves@);
        }

        let mut new_suggestion = self.suggestion;
        let mut player_1_successful_suggestion = self.player_1_successful_suggestion;
        let mut player_1_successful_prediction = self.player_1_successful_prediction;
        let mut player_1_suggestion_attempts = self.player_1_suggestion_attempts;
        let mut player_1_prediction_attempts = self.player_1_prediction_attempts;
        let mut player_2_successful_suggestion = self.player_2_successful_suggestion;
        let mut player_2_successful_prediction = self.player_2_successful_prediction;
        let mut player_2_suggestion_attempts = self.player_2_suggestion_attempts;
        let mut player_2_prediction_attempts = self.player_2_prediction_attempts;
        let mut player_2_suggests = self.player_2_suggests;

        moves.push(*next_move);

        match next_move.move_type {
            MoveType::Suggest { suggestion } => {
                new_suggestion = suggestion;
                if game.player_1 == next_move.author {
                    player_1_suggestion_attempts = player_1_suggestion_attempts + 1;
                } else {
                    player_2_suggestion_attempts = player_2_suggestion_attempts + 1;
                }
            },
            MoveType::Predict { prediction } => {
                if game.player_1 == next_move.author {
                    if new_suggestion == prediction {
                        player_1_successful_prediction = player_1_successful_prediction + 1;
                    } else {
                        player_2_successful_suggestion = player_2_successful_suggestion + 1;
                    }
                    player_1_prediction_attempts = player_1_prediction_attempts + 1;
                } else if game.player_2 == next_move.author {
                    if new_suggestion == prediction {
                        player_2_successful_prediction = player_2_successful_prediction + 1;
                    } else {
                        player_1_successful_suggestion = player_1_successful_suggestion + 1;
                    }
                    player_2_prediction_attempts = player_2_prediction_attempts + 1;
                }
            },
            MoveType::Swap {  } => {
                player_2_suggests = !player_2_suggests;
            },
        }

        let next = GameState {
            moves,
            suggestion: new_suggestion,
            player_1_successful_suggestion,
            player_1_successful_prediction,
            player_1_suggestion_attempts,
            player_1_prediction_attempts,
            player_2_successful_suggestion,
            player_2_successful_prediction,
            player_2_suggestion_attempts,
            player_2_prediction_attempts,
            player_2_suggests,
        };
        proof {
            assert(next@ =~= spec_evolve(game, self@, *next_move));
        }
        next
    }
}

/// The decimal digit character of `d`.
pub open spec fn dec_digit(d: nat) -> char {
    if d == 0 {
        '0'
    } else if d == 1 {
        '1'
    } else if d == 2 {
        '2'
    } else if d == 3 {
        '3'
    } else if d == 4 {
        '4'
    } else if d == 5 {
        '5'
    } else if d == 6 {
        '6'
    } else if d == 7 {
        '7'
    } else if d == 8 {
        '8'
    } else {
        '9'
    }
}

/// The decimal digits of `n`, most significant first, without leading zeros
/// (a single `'0'` for zero itself).
pub open spec fn dec_str(n: nat) -> Seq<char>
    decreases n,
{
    if n < 10 {
        seq![dec_digit(n)]
    } else {
        dec_str(n / 10) + seq![dec_digit(n % 10)]
    }
}

fn digit_str(d: usize) -> (r: &'static str)
    requires
        d < 10,
    ensures
        r@ == seq![dec_digit(d as nat)],
{
    let r: &'static str = if d == 0 {
        "0"
    } else if d == 1 {
        "1"
    } else if d == 2 {
        "2"
    } else if d == 3 {
        "3"
    } else if d == 4 {
        "4"
    } else if d == 5 {
        "5"
    } else if d == 6 {
        "6"
    } else if d == 7 {
        "7"
    } else if d == 8 {
        "8"
    } else {
        "9"
    };
    proof {
        reveal_strlit("0");
        reveal_strlit("1");
        reveal_strlit("2");
        reveal_strlit("3");
        reveal_strlit("4");
        reveal_strlit("5");
        reveal_strlit("6");
        reveal_strlit("7");
        reveal_strlit("8");
        reveal_strlit("9");
        assert(r@ =~= seq![dec_digit(d as nat)]);
    }
    r
}

fn usize_to_string(n: usize) -> (r: String)
    ensures
        r@ == dec_str(n as nat),
    decreases n,
{
    if n < 10 {
        let mut s = String::new();
        s.append(digit_str(n));
        proof {
            assert(Seq::<char>::empty() + seq![dec_digit(n as nat)] =~= seq![
                dec_digit(n as nat),
            ]);
        }
        s
    } else {
        let mut s = usize_to_string(n / 10);
        s.append(digit_str(n % 10));
        s
    }
}

/// The status line of a rendered state: whose turn comes next, and whether
/// that player's role calls for a suggestion or a prediction.
pub open spec fn status_line(s: StateView, game: Game) -> Seq<char> {
    if s.moves.len() == 0 {
        "Waiting for player 2 to suggest a number"@
    } else if s.moves.last().author == game.player_1 {
        if s.player_2_suggests {
            "Waiting for player 2 to suggest a number..."@
        } else {
            "Waiting for player 2 to predict the suggeted number..."@
        }
    } else {
        if s.player_2_suggests {
            "Waiting for player 1 to predict the suggested number..."@
        } else {
            "Waiting for player 1 to suggest a number..."@
        }
    }
}

/// The full rendered report: the status line, then each player's
/// successful/attempted tallies for suggestions and predictions.
pub open spec fn render_spec(s: StateView, game: Game) -> Seq<char> {
    " "@ + status_line(s, game) + " \nplayer 1 record: \n\tsuggestion: "@ + dec_str(
        s.player_1_successful_suggestion as nat,
    ) + "/"@ + dec_str(s.player_1_suggestion_attempts as nat) + " \n\tprediction: "@ + dec_str(
        s.player_1_successful_prediction as nat,
    ) + "/"@ + dec_str(s.player_1_prediction_attempts as nat)
        + " \nplayer 2 record: \n\tsuggestion: "@ + dec_str(
        s.player_2_successful_suggestion as nat,
    ) + "/"@ + dec_str(s.player_2_suggestion_attempts as nat) + " \n\tprediction: "@ + dec_str(
        s.player_2_successful_prediction as nat,
    ) + "/"@ + dec_str(s.player_2_prediction_attempts as nat) + "\n"@
}

impl GameState {
    /// A presentational summary of the state: whose turn and role is next,
    /// from the last move's author and the current suggester flag, followed
    /// by both players' suggestion and prediction tallies. Derived state
    /// only; nothing depends on it.
    pub fn render(&self, game: &Game) -> (r: String)
        ensures
            r@ == render_spec(self@, *game),
    {
        let n = self.moves.len();
        let game_string: &str = if n == 0 {
            "Waiting for player 2 to suggest a number"
        } else {
            let last_move = &self.moves[n - 1];
            if last_move.author == game.player_1 {
                if self.player_2_suggests {
                    "Waiting for player 2 to suggest a number..."
                } else {
                    "Waiting for player 2 to predict the suggeted number..."
                }
            } else {
                if self.player_2_suggests {
                    "Waiting for player 1 to predict the suggested number..."
                } else {
                    "Waiting for player 1 to suggest a number..."
                }
            }
        };
        proof {
            assert(game_string@ == status_line(self@, *game));
        }
        let mut out = String::from_str(" ");
        out.append(game_string);
        out.append(" \nplayer 1 record: \n\tsuggestion: ");
        let tally = usize_to_string(self.player_1_successful_suggestion);
        out.append(tally.as_str());
        out.append("/");
        let tally = usize_to_string(self.player_1_suggestion_attempts);
        out.append(tally.as_str());
        out.append(" \n\tprediction: ");
        let tally = usize_to_string(self.player_1_successful_prediction);
        out.append(tally.as_str());
        out.append("/");
        let tally = usize_to_string(self.player_1_prediction_attempts);
        out.append(tally.as_str());
        out.append(" \nplayer 2 record: \n\tsuggestion: ");
        let tally = usize_to_string(self.player_2_successful_suggestion);
        out.append(tally.as_str());
        out.append("/");
        let tally = usize_to_string(self.player_2_suggestion_attempts);
        out.append(tally.as_str());
        out.append(" \n\tprediction: ");
        let tally = usize_to_string(self.player_2_successful_prediction);
        out.append(tally.as_str());
        out.append("/");
        let tally = usize_to_string(self.player_2_prediction_attempts);
        out.append(tally.as_str());
        out.append("\n");
        proof {
            assert(out@ =~= render_spec(self@, *game));
        }
        out
    }
}

/// Fold an ordered move sequence (oldest first) into the state it induces,
/// starting from the initial state. Pure and total: the result is a function
/// of the arguments alone.
pub fn reduce(game: &Game, moves: &Vec<Move>) -> (state: GameState)
    ensures
        state@ == spec_reduce(*game, moves@),
{
    let mut state = GameState::initial();
    let mut i: usize = 0;
    proof {
        assert(moves@.take(0) =~= Seq::<Move>::empty());
    }
    while i < moves.len()
        invariant
            i <= moves.len(),
            state@ == spec_reduce(*game, moves@.take(i as int)),
            counters_within(state@, i as int),
        decreases moves.len() - i,
    {
        proof {
            assert(moves@.take(i + 1).drop_last() =~= moves@.take(i as int));
            assert(moves@.take(i + 1).last() == moves@[i as int]);
        }
        state = state.evolve(*game, &moves[i]);
        i = i + 1;
    }
    proof {
        assert(moves@.take(moves@.len() as int) =~= moves@);
    }
    state
}

/// The applied-move list of a reduced state is exactly the sequence that was
/// folded into it.
pub proof fn lemma_reduce_moves(game: Game, moves: Seq<Move>)
    ensures
        spec_reduce(game, moves).moves == moves,
    decreases moves.len(),
{
    if moves.len() == 0 {
        assert(spec_reduce(game, moves).moves =~= moves);
    } else {
        lemma_reduce_moves(game, moves.drop_last());
        assert(spec_reduce(game, moves).moves =~= moves);
    }
}

/// Reduction is referentially pure: on equal inputs it yields equal states.
pub proof fn lemma_reduce_deterministic(
    game_1: Game,
    moves_1: Seq<Move>,
    game_2: Game,
    moves_2: Seq<Move>,
)
    requires
        game_1 == game_2,
        moves_1 == moves_2,
    ensures
        spec_reduce(game_1, moves_1) == spec_reduce(game_2, moves_2),
{
}

} // verus!
