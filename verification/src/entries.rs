//! The plain-data shapes in which the hosting environment's collaborators
//! hand the library their snapshots: stored records keyed by content
//! address, the link index, and the lifecycle operations submitted for
//! validation.
//!
//! The storage engine itself (put/get, link creation, gossip) is outside this
//! library; everything here is an already-fetched value.

use vstd::prelude::*;

use crate::game::Game;
use crate::game_move::Move;

verus! {

/// A stored record: a game root, a move, or some unrelated record kind that
/// happens to live in the same store.
#[derive(Clone, Copy, Debug, PartialEq, Eq, Structural)]
pub enum Entry {
    Game(Game),
    Move(Move),
    Other,
}

/// An entry together with the content address it is stored under. Identical
/// content always yields the same address, and the library only ever compares
/// addresses for equality.
#[derive(Clone, Copy, Debug, PartialEq, Eq, Structural)]
pub struct ChainEntry {
    pub address: u64,
    pub entry: Entry,
}

/// A snapshot of the globally shared, eventually consistent view: the content
/// store as addressed entries, and the link index as from/to address pairs.
/// A snapshot that lags behind simply contains fewer links.
#[derive(Clone, Debug, PartialEq, Eq)]
pub struct LinkGraph {
    pub entries: Vec<ChainEntry>,
    pub links: Vec<(u64, u64)>,
}

/// How a request can fail. `NotFound`, `TypeMismatch` and `RetrievalError`
/// are structural failures of resolution and are propagated unchanged;
/// `ValidationError` carries a human-readable reason meant for direct display
/// to the end user.
#[derive(Clone, Debug, PartialEq, Eq)]
pub enum Error {
    NotFound,
    TypeMismatch,
    RetrievalError,
    ValidationError(String),
}

/// The lifecycle operations the hosting environment submits for judgement:
/// creating a record, or attempting to modify or delete a committed one.
#[derive(Clone, Copy, Debug)]
pub enum EntryOp<T> {
    Create { entry: T },
    Modify,
    Delete,
}

/// `r` failed with a `ValidationError` carrying exactly `reason`.
pub open spec fn is_validation_error(r: Result<(), Error>, reason: Seq<char>) -> bool {
    r matches Err(Error::ValidationError(s)) && s@ == reason
}

/// The first entry stored under `address`, if any.
pub open spec fn spec_lookup(entries: Seq<ChainEntry>, address: u64) -> Option<Entry>
    decreases entries.len(),
{
    if entries.len() == 0 {
        None
    } else if entries[0].address == address {
        Some(entries[0].entry)
    } else {
        spec_lookup(entries.drop_first(), address)
    }
}

/// Resolve an address against the content store.
pub fn lookup(entries: &Vec<ChainEntry>, address: u64) -> (r: Option<Entry>)
    ensures
        r == spec_lookup(entries@, address),
{
    let mut i: usize = 0;
    proof {
        assert(entries@.skip(0) =~= entries@);
    }
    while i < entries.len()
        invariant
            i <= entries.len(),
            spec_lookup(entries@, address) == spec_lookup(entries@.skip(i as int), address),
        decreases entries.len() - i,
    {
        proof {
            assert(entries@.skip(i as int)[0] == entries@[i as int]);
            assert(entries@.skip(i as int).drop_first() =~= entries@.skip(i + 1));
        }
        if entries[i].address == address {
            return Some(entries[i].entry);
        }
        i = i + 1;
    }
    proof {
        assert(entries@.skip(entries@.len() as int).len() == 0);
    }
    None
}

} // verus!
