//! The move record that players append to a game's chain, and the lifecycle
//! rules for move records.

use vstd::prelude::*;

use crate::entries::{is_validation_error, ChainEntry, EntryOp, Error};
use crate::game::{get_game_local_chain, get_state_local_chain, local_game, spec_get_state_local};
use crate::moves::MoveType;
use crate::validation::move_validity;

verus! {

/// What a player hands in when they want to make a move. The author identity
/// and the link to the previous move are supplied by the hosting environment,
/// not by the caller.
#[derive(Clone, Copy, Debug, PartialEq, Eq, Structural)]
pub struct MoveInput {
    pub game: u64,
    pub move_type: MoveType,
    pub timestamp: u32,
}

/// One committed (or candidate) move. Addresses and author identities are the
/// opaque handles the hosting environment deals in; the library only ever
/// compares them for equality, so it carries them as plain integers.
///
/// `previous_move` points at the prior move, or at the game root for the
/// first move of a match; the chain is singly linked backwards, and forward
/// traversal goes through the link index instead.
#[derive(Clone, Copy, Debug, PartialEq, Eq, Structural)]
pub struct Move {
    pub game: u64,
    pub author: u64,
    pub move_type: MoveType,
    pub previous_move: u64,
    pub timestamp: u32,
}

/// A local log with the in-flight candidate taken out: the first entry stored
/// under the candidate's own address is removed, and nothing else. Exclusion
/// goes by unique address, never by content equality, so an unrelated but
/// content-identical earlier move is not dropped by accident.
pub open spec fn exclude_candidate(chain: Seq<ChainEntry>, candidate_address: u64) -> Seq<
    ChainEntry,
>
    decreases chain.len(),
{
    if chain.len() == 0 {
        Seq::empty()
    } else if chain[0].address == candidate_address {
        chain.drop_first()
    } else {
        seq![chain[0]] + exclude_candidate(chain.drop_first(), candidate_address)
    }
}

/// Copy a local log, leaving out the first entry stored under `address`.
fn remove_candidate(chain: &Vec<ChainEntry>, address: u64) -> (out: Vec<ChainEntry>)
    ensures
        out@ == exclude_candidate(chain@, address),
{
    let mut out: Vec<ChainEntry> = Vec::new();
    let mut removed = false;
    let mut i: usize = 0;
    proof {
        assert(chain@.skip(0) =~= chain@);
        assert(Seq::<ChainEntry>::empty() + exclude_candidate(chain@, address)
            =~= exclude_candidate(chain@, address));
    }
    while i < chain.len()
        invariant
            i <= chain.len(),
            !removed ==> exclude_candidate(chain@, address) == out@ + exclude_candidate(
                chain@.skip(i as int),
                address,
            ),
            removed ==> exclude_candidate(chain@, address) == out@ + chain@.skip(i as int),
        decreases chain.len() - i,
    {
        let ghost pre_out = out@;
        proof {
            assert(chain@.skip(i as int)[0] == chain@[i as int]);
            assert(chain@.skip(i as int).drop_first() =~= chain@.skip(i + 1));
        }
        if !removed && chain[i].address == address {
            removed = true;
            proof {
                assert(pre_out + chain@.skip(i as int).drop_first() =~= pre_out + chain@.skip(
                    i + 1,
                ));
            }
        } else {
            out.push(chain[i]);
            proof {
                if removed {
                    assert(pre_out + chain@.skip(i as int) =~= out@ + chain@.skip(i + 1));
                } else {
                    let rest = exclude_candidate(chain@.skip(i + 1), address);
                    assert(pre_out + (seq![chain@[i as int]] + rest) =~= out@ + rest);
                }
            }
        }
        i = i + 1;
    }
    proof {
        assert(chain@.skip(chain@.len() as int).len() == 0);
        assert(out@ + Seq::<ChainEntry>::empty() =~= out@);
        assert(out@ + exclude_candidate(chain@.skip(chain@.len() as int), address) =~= out@);
    }
    out
}

/// Judge a lifecycle operation on a move record.
///
/// Creation validates the candidate against the state derived from the
/// author's own local log, because the move is not yet globally visible: the
/// candidate itself, already appended to the log, is first excluded by its
/// unique address, the remaining log is folded into a state, and the
/// candidate is then checked against that state by the move validator. A
/// missing log, a missing game record, or a rule violation each yield a
/// `ValidationError` with a display reason; a structurally unreadable log
/// propagates its resolution error unchanged. A committed move can never be
/// modified or deleted.
pub fn validate_move_entry(
    op: &EntryOp<Move>,
    candidate_address: u64,
    source_chain: &Option<Vec<ChainEntry>>,
) -> (r: Result<(), Error>)
    ensures
        match *op {
            EntryOp::Create { entry } => match *source_chain {
                None => is_validation_error(r, "Could not retrieve source chain"@),
                Some(chain) => {
                    let excluded = exclude_candidate(chain@, candidate_address);
                    match spec_get_state_local(excluded, entry.game) {
                        Err(e) => r == Err::<(), Error>(e),
                        Ok(state) => match local_game(excluded, entry.game) {
                            None => is_validation_error(
                                r,
                                "Could not load game during validation"@,
                            ),
                            Some(game) => match move_validity(entry, game, state) {
                                Ok(()) => r == Ok::<(), Error>(()),
                                Err(reason) => is_validation_error(r, reason),
                            },
                        },
                    }
                },
            },
            EntryOp::Modify => is_validation_error(r, "Cannot modify or delete a move"@),
            EntryOp::Delete => is_validation_error(r, "Cannot modify or delete a move"@),
        },
{
    match op {
        EntryOp::Create { entry } => {
            let new_move = *entry;
            let chain = match source_chain {
                None => {
                    return Err(
                        Error::ValidationError(
                            String::from_str("Could not retrieve source chain"),
                        ),
                    );
                },
                Some(chain) => chain,
            };

            // The candidate is already in the author's log when validation
            // runs; it must not be counted into the state it is judged
            // against.
            let local_chain = remove_candidate(chain, candidate_address);

            let state = match get_state_local_chain(&local_chain, new_move.game) {
                Ok(state) => state,
                Err(e) => {
                    return Err(e);
                },
            };
            let game = match get_game_local_chain(&local_chain, new_move.game) {
                Ok(game) => game,
                Err(_) => {
                    return Err(
                        Error::ValidationError(
                            String::from_str("Could not load game during validation"),
                        ),
                    );
                },
            };

            match new_move.is_valid(game, state) {
                Ok(()) => Ok(()),
                Err(reason) => Err(Error::ValidationError(reason)),
            }
        },
        _ => Err(Error::ValidationError(String::from_str("Cannot modify or delete a move"))),
    }
}

} // verus!
