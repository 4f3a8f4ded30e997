//! The game root record, the two move-chain resolvers, and the lifecycle
//! rules for game records.
//!
//! Both resolvers produce the same kind of ordered move sequence, oldest
//! first: one walks the globally shared link graph from the game root, the
//! other reconstructs the sequence from an author's own local append log.
//! Either sequence can then be folded into a state by [`crate::state::reduce`].

use vstd::prelude::*;

use crate::entries::{is_validation_error, lookup, spec_lookup, ChainEntry, Entry, EntryOp, Error, LinkGraph};
use crate::game_move::Move;
use crate::state::{reduce, spec_reduce, GameState, StateView};

verus! {

/// The immutable root of a match. Created exactly once; every move of the
/// match references it. The two players must be different agents.
#[derive(Clone, Copy, Debug, PartialEq, Eq, Structural)]
pub struct Game {
    pub player_1: u64,
    pub player_2: u64,
    pub created_at: u32,
}

/// The first outgoing link of `from` recorded in the link index, if any. The
/// protocol expects exactly one outgoing link per node; a fork is not
/// disambiguated here, the first recorded link wins.
pub open spec fn spec_first_link(links: Seq<(u64, u64)>, from: u64) -> Option<u64>
    decreases links.len(),
{
    if links.len() == 0 {
        None
    } else if links[0].0 == from {
        Some(links[0].1)
    } else {
        spec_first_link(links.drop_first(), from)
    }
}

fn first_link(links: &Vec<(u64, u64)>, from: u64) -> (r: Option<u64>)
    ensures
        r == spec_first_link(links@, from),
{
    let mut i: usize = 0;
    proof {
        assert(links@.skip(0) =~= links@);
    }
    while i < links.len()
        invariant
            i <= links.len(),
            spec_first_link(links@, from) == spec_first_link(links@.skip(i as int), from),
        decreases links.len() - i,
    {
        proof {
            assert(links@.skip(i as int)[0] == links@[i as int]);
            assert(links@.skip(i as int).drop_first() =~= links@.skip(i + 1));
        }
        if links[i].0 == from {
            return Some(links[i].1);
        }
        i = i + 1;
    }
    proof {
        assert(links@.skip(links@.len() as int).len() == 0);
    }
    None
}

/// The addresses reached from `from` by repeatedly following the first
/// outgoing link, walking at most `fuel` steps. A cycle-free walk consumes a
/// distinct link record at every step, so `fuel = links.len()` covers every
/// well-formed chain; the bound only makes the walk total on snapshots whose
/// link records happen to form a cycle.
pub open spec fn chain_addrs(links: Seq<(u64, u64)>, from: u64, fuel: nat) -> Seq<u64>
    decreases fuel,
{
    if fuel == 0 {
        Seq::empty()
    } else {
        match spec_first_link(links, from) {
            None => Seq::empty(),
            Some(next) => seq![next] + chain_addrs(links, next, (fuel - 1) as nat),
        }
    }
}

/// A walk that came to rest on its own — it is shorter than its fuel allows —
/// is not changed by granting it more fuel: the bound truncates nothing but a
/// walk around a cycle.
pub proof fn lemma_chain_addrs_stable(links: Seq<(u64, u64)>, from: u64, fuel: nat, more: nat)
    requires
        chain_addrs(links, from, fuel).len() < fuel,
        fuel <= more,
    ensures
        chain_addrs(links, from, more) == chain_addrs(links, from, fuel),
    decreases fuel,
{
    match spec_first_link(links, from) {
        None => {},
        Some(next) => {
            lemma_chain_addrs_stable(links, next, (fuel - 1) as nat, (more - 1) as nat);
        },
    }
}

/// Resolve each address in turn against the content store. The first address
/// that cannot be retrieved decides a `RetrievalError`; the first one that
/// holds something other than a move decides a `TypeMismatch`.
pub open spec fn spec_resolve_moves(entries: Seq<ChainEntry>, addrs: Seq<u64>) -> Result<
    Seq<Move>,
    Error,
>
    decreases addrs.len(),
{
    if addrs.len() == 0 {
        Ok(Seq::empty())
    } else {
        match spec_lookup(entries, addrs[0]) {
            None => Err(Error::RetrievalError),
            Some(Entry::Move(m)) => match spec_resolve_moves(entries, addrs.drop_first()) {
                Ok(rest) => Ok(seq![m] + rest),
                Err(e) => Err(e),
            },
            Some(_) => Err(Error::TypeMismatch),
        }
    }
}

/// What the global resolver returns: the chain of linked addresses rooted at
/// the game, each resolved to a move.
pub open spec fn spec_get_moves(
    entries: Seq<ChainEntry>,
    links: Seq<(u64, u64)>,
    game_address: u64,
) -> Result<Seq<Move>, Error> {
    spec_resolve_moves(entries, chain_addrs(links, game_address, links.len()))
}

/// An executable move list mirrors a specification one: the same moves on
/// success, the same error on failure.
pub open spec fn moves_match(r: Result<Vec<Move>, Error>, s: Result<Seq<Move>, Error>) -> bool {
    match (r, s) {
        (Ok(v), Ok(ms)) => v@ == ms,
        (Err(a), Err(b)) => a == b,
        _ => false,
    }
}

/// Traverse the linked list rooted at a game to find all the moves, oldest
/// first. Returns the empty list if the game has no moves yet, and only the
/// visible prefix if the snapshot has not yet replicated later moves.
pub fn get_moves(graph: &LinkGraph, game_address: u64) -> (r: Result<Vec<Move>, Error>)
    ensures
        moves_match(r, spec_get_moves(graph.entries@, graph.links@, game_address)),
{
    let ghost full_chain = chain_addrs(graph.links@, game_address, graph.links@.len());

    // Walk the link index from the game root, collecting the address of each
    // move in order. The walk spends one fuel unit per step, so it also ends
    // on a snapshot whose link records form a cycle.
    let mut move_addresses: Vec<u64> = Vec::new();
    let mut current = game_address;
    let mut fuel = graph.links.len();
    let mut more = true;
    proof {
        assert(Seq::<u64>::empty() + full_chain =~= full_chain);
    }
    while more
        invariant
            fuel <= graph.links.len(),
            more ==> full_chain == move_addresses@ + chain_addrs(
                graph.links@,
                current,
                fuel as nat,
            ),
            !more ==> full_chain == move_addresses@,
        decreases 2 * (fuel as int) + (if more { 1int } else { 0int }),
    {
        let ghost pre_addrs = move_addresses@;
        let ghost pre_fuel = fuel as nat;
        let ghost pre_current = current;
        if fuel == 0 {
            more = false;
            proof {
                assert(pre_addrs + chain_addrs(graph.links@, current, 0nat) =~= pre_addrs);
            }
        } else {
            match first_link(&graph.links, current) {
                Some(addr) => {
                    move_addresses.push(addr);
                    current = addr;
                    fuel = fuel - 1;
                    proof {
                        let rest = chain_addrs(graph.links@, current, fuel as nat);
                        assert(chain_addrs(graph.links@, pre_current, pre_fuel) == seq![current]
                            + rest);
                        assert(pre_addrs + (seq![current] + rest) =~= move_addresses@ + rest);
                    }
                },
                None => {
                    more = false;
                    proof {
                        assert(chain_addrs(graph.links@, current, pre_fuel) =~= Seq::<u64>::empty());
                        assert(pre_addrs + Seq::<u64>::empty() =~= pre_addrs);
                    }
                },
            }
        }
    }

    // Resolve every collected address to its move.
    let mut moves: Vec<Move> = Vec::new();
    let mut i: usize = 0;
    proof {
        assert(move_addresses@.skip(0) =~= move_addresses@);
        assert(spec_resolve_moves(graph.entries@, move_addresses@) matches Ok(rest) ==> Seq::<
            Move,
        >::empty() + rest =~= rest);
    }
    while i < move_addresses.len()
        invariant
            i <= move_addresses.len(),
            full_chain == chain_addrs(graph.links@, game_address, graph.links@.len()),
            full_chain == move_addresses@,
            match spec_resolve_moves(graph.entries@, move_addresses@.skip(i as int)) {
                Ok(rest) => spec_resolve_moves(graph.entries@, move_addresses@) == Ok::<
                    Seq<Move>,
                    Error,
                >(moves@ + rest),
                Err(e) => spec_resolve_moves(graph.entries@, move_addresses@) == Err::<
                    Seq<Move>,
                    Error,
                >(e),
            },
        decreases move_addresses.len() - i,
    {
        let addr = move_addresses[i];
        proof {
            assert(move_addresses@.skip(i as int)[0] == addr);
            assert(move_addresses@.skip(i as int).drop_first() =~= move_addresses@.skip(i + 1));
        }
        match lookup(&graph.entries, addr) {
            None => {
                return Err(Error::RetrievalError);
            },
            Some(entry) => match entry {
                Entry::Move(m) => {
                    let ghost pre_moves = moves@;
                    moves.push(m);
                    proof {
                        assert(spec_resolve_moves(
                            graph.entries@,
                            move_addresses@.skip(i + 1),
                        ) matches Ok(rest) ==> pre_moves + (seq![m] + rest) =~= moves@ + rest);
                    }
                    i = i + 1;
                },
                _ => {
                    return Err(Error::TypeMismatch);
                },
            },
        }
    }
    proof {
        assert(move_addresses@.skip(move_addresses@.len() as int).len() == 0);
        assert(moves@ + Seq::<Move>::empty() =~= moves@);
    }
    Ok(moves)
}

/// What resolving a game root yields: the entry stored at the address, which
/// must be a game record.
pub open spec fn spec_get_game(entries: Seq<ChainEntry>, game_address: u64) -> Result<Game, Error> {
    match spec_lookup(entries, game_address) {
        None => Err(Error::NotFound),
        Some(Entry::Game(g)) => Ok(g),
        Some(_) => Err(Error::TypeMismatch),
    }
}

/// Load the game record stored at `game_address` from the content store.
pub fn get_game(graph: &LinkGraph, game_address: u64) -> (r: Result<Game, Error>)
    ensures
        r == spec_get_game(graph.entries@, game_address),
{
    match lookup(&graph.entries, game_address) {
        None => Err(Error::NotFound),
        Some(entry) => match entry {
            Entry::Game(game) => Ok(game),
            _ => Err(Error::TypeMismatch),
        },
    }
}

/// An executable state result mirrors a specification one: the same state on
/// success, the same error on failure.
pub open spec fn state_matches(r: Result<GameState, Error>, s: Result<StateView, Error>) -> bool {
    match (r, s) {
        (Ok(state), Ok(v)) => state@ == v,
        (Err(a), Err(b)) => a == b,
        _ => false,
    }
}

/// What deriving the state from the global view yields: the resolved move
/// sequence folded into a state of the resolved game.
pub open spec fn spec_get_state(
    entries: Seq<ChainEntry>,
    links: Seq<(u64, u64)>,
    game_address: u64,
) -> Result<StateView, Error> {
    match spec_get_moves(entries, links, game_address) {
        Err(e) => Err(e),
        Ok(moves) => match spec_get_game(entries, game_address) {
            Err(e) => Err(e),
            Ok(game) => Ok(spec_reduce(game, moves)),
        },
    }
}

/// Derive the current state of a game from the globally shared view.
pub fn get_state(graph: &LinkGraph, game_address: u64) -> (r: Result<GameState, Error>)
    ensures
        state_matches(r, spec_get_state(graph.entries@, graph.links@, game_address)),
{
    let moves = match get_moves(graph, game_address) {
        Ok(moves) => moves,
        Err(e) => {
            return Err(e);
        },
    };
    let game = match get_game(graph, game_address) {
        Ok(game) => game,
        Err(e) => {
            return Err(e);
        },
    };
    let new_state = reduce(&game, &moves);
    Ok(new_state)
}

/// The moves a single local-log entry contributes: one, when it is a move of
/// the requested game; none otherwise.
pub open spec fn entry_moves(ce: ChainEntry, game_address: u64) -> Seq<Move> {
    match ce.entry {
        Entry::Move(m) => if m.game == game_address {
            seq![m]
        } else {
            Seq::empty()
        },
        _ => Seq::empty(),
    }
}

/// The moves of a game found in a local log, oldest first. The log's native
/// order is most recent first, so the log is read back to front.
pub open spec fn local_moves(chain: Seq<ChainEntry>, game_address: u64) -> Seq<Move>
    decreases chain.len(),
{
    if chain.len() == 0 {
        Seq::empty()
    } else {
        local_moves(chain.drop_first(), game_address) + entry_moves(chain[0], game_address)
    }
}

/// The first game record stored in a local log under `game_address`, if any.
pub open spec fn local_game(chain: Seq<ChainEntry>, game_address: u64) -> Option<Game>
    decreases chain.len(),
{
    if chain.len() == 0 {
        None
    } else {
        match chain[0].entry {
            Entry::Game(g) => if chain[0].address == game_address {
                Some(g)
            } else {
                local_game(chain.drop_first(), game_address)
            },
            _ => local_game(chain.drop_first(), game_address),
        }
    }
}

/// Find the game record stored under `game_address` in an author's local log.
/// Fails with `NotFound` when the log holds no such record.
pub fn get_game_local_chain(local_chain: &Vec<ChainEntry>, game_address: u64) -> (r: Result<
    Game,
    Error,
>)
    ensures
        match local_game(local_chain@, game_address) {
            Some(g) => r == Ok::<Game, Error>(g),
            None => r == Err::<Game, Error>(Error::NotFound),
        },
{
    let mut i: usize = 0;
    proof {
        assert(local_chain@.skip(0) =~= local_chain@);
    }
    while i < local_chain.len()
        invariant
            i <= local_chain.len(),
            local_game(local_chain@, game_address) == local_game(
                local_chain@.skip(i as int),
                game_address,
            ),
        decreases local_chain.len() - i,
    {
        proof {
            assert(local_chain@.skip(i as int)[0] == local_chain@[i as int]);
            assert(local_chain@.skip(i as int).drop_first() =~= local_chain@.skip(i + 1));
        }
        if local_chain[i].address == game_address {
            match local_chain[i].entry {
                Entry::Game(game) => {
                    return Ok(game);
                },
                _ => {},
            }
        }
        i = i + 1;
    }
    proof {
        assert(local_chain@.skip(local_chain@.len() as int).len() == 0);
    }
    Err(Error::NotFound)
}

/// Collect the moves of a game from an author's local log, reversing the
/// log's most-recent-first order into the oldest-first order the reducer
/// expects. Never fails: a log without moves yields the empty list.
pub fn get_moves_local_chain(local_chain: &Vec<ChainEntry>, game_address: u64) -> (r: Result<
    Vec<Move>,
    Error,
>)
    ensures
        moves_match(r, Ok(local_moves(local_chain@, game_address))),
{
    let mut moves: Vec<Move> = Vec::new();
    let mut k: usize = local_chain.len();
    proof {
        assert(local_chain@.skip(local_chain@.len() as int).len() == 0);
    }
    while k > 0
        invariant
            k <= local_chain.len(),
            moves@ == local_moves(local_chain@.skip(k as int), game_address),
        decreases k,
    {
        k = k - 1;
        let ghost pre_moves = moves@;
        proof {
            assert(local_chain@.skip(k as int)[0] == local_chain@[k as int]);
            assert(local_chain@.skip(k as int).drop_first() =~= local_chain@.skip(k + 1));
        }
        match local_chain[k].entry {
            Entry::Move(m) => {
                if m.game == game_address {
                    moves.push(m);
                    proof {
                        assert(pre_moves + seq![m] =~= moves@);
                    }
                } else {
                    proof {
                        assert(pre_moves + Seq::<Move>::empty() =~= pre_moves);
                    }
                }
            },
            _ => {
                proof {
                    assert(pre_moves + Seq::<Move>::empty() =~= pre_moves);
                }
            },
        }
    }
    proof {
        assert(local_chain@.skip(0) =~= local_chain@);
    }
    Ok(moves)
}

/// What deriving the state from a local log yields: the log's move sequence
/// folded into a state of the log's game record.
pub open spec fn spec_get_state_local(chain: Seq<ChainEntry>, game_address: u64) -> Result<
    StateView,
    Error,
> {
    match local_game(chain, game_address) {
        None => Err(Error::NotFound),
        Some(game) => Ok(spec_reduce(game, local_moves(chain, game_address))),
    }
}

/// Derive the current state of a game from an author's local log. Fails with
/// `NotFound` when the log holds no game record under `game_address`.
pub fn get_state_local_chain(local_chain: &Vec<ChainEntry>, game_address: u64) -> (r: Result<
    GameState,
    Error,
>)
    ensures
        state_matches(r, spec_get_state_local(local_chain@, game_address)),
{
    let moves = match get_moves_local_chain(local_chain, game_address) {
        Ok(moves) => moves,
        Err(e) => {
            return Err(e);
        },
    };
    let game = match get_game_local_chain(local_chain, game_address) {
        Ok(game) => game,
        Err(e) => {
            return Err(e);
        },
    };
    let new_state = reduce(&game, &moves);
    Ok(new_state)
}

/// Judge a lifecycle operation on a game record. Creation is accepted exactly
/// when the two players are different agents; a committed game can never be
/// modified or deleted.
pub fn validate_game_entry(op: &EntryOp<Game>) -> (r: Result<(), Error>)
    ensures
        match *op {
            EntryOp::Create { entry } => {
                if entry.player_1 == entry.player_2 {
                    is_validation_error(r, "Player 1 and Player 2 must be different agents."@)
                } else {
                    r == Ok::<(), Error>(())
                }
            },
            EntryOp::Modify => is_validation_error(r, "Cannot modify or delete a game"@),
            EntryOp::Delete => is_validation_error(r, "Cannot modify or delete a game"@),
        },
{
    match op {
        EntryOp::Create { entry } => {
            if entry.player_1 == entry.player_2 {
                Err(
                    Error::ValidationError(
                        String::from_str("Player 1 and Player 2 must be different agents."),
                    ),
                )
            } else {
                Ok(())
            }
        },
        _ => Err(Error::ValidationError(String::from_str("Cannot modify or delete a game"))),
    }
}

} // verus!
