//! A two-player, turn-based number-guessing game whose authoritative state is
//! never stored directly: it is derived, on demand, by replaying an
//! append-only, content-addressed sequence of immutable moves anchored to an
//! immutable game root.
//!
//! The library covers reconstructing an ordered move sequence from either of
//! two views of the world (the globally shared link graph, or a single
//! author's local append log), deterministically folding that sequence into a
//! game state, and the admission-control rules that decide whether a new
//! candidate move may be appended. Storage, networking and serialization are
//! the hosting environment's business; this crate works on already-fetched
//! snapshots of plain data.

pub mod entries;
pub mod game;
pub mod game_move;
pub mod moves;
pub mod state;
pub mod validation;
