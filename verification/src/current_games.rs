//! The per-player index of open games: a game is listed from its creation
//! until a validated result for it is linked. The index is the engine's
//! only mutable state, and both writes are idempotent, since closure may
//! be retried after a crash without duplicating or losing entries.

use vstd::prelude::*;

use crate::agreement::GameResultEntry;
use crate::{remaining_spec, EntryId};

verus! {

/// The index after listing `g`: unchanged if `g` is already listed.
pub open spec fn add_game_spec(s: Seq<EntryId>, g: EntryId) -> Seq<EntryId> {
    if s.contains(g) {
        s
    } else {
        s.push(g)
    }
}

/// The index after delisting `g`: every occurrence of `g` is gone and the
/// order of the rest is kept.
pub open spec fn remove_game_spec(s: Seq<EntryId>, g: EntryId) -> Seq<EntryId>
    decreases s.len(),
{
    if s.len() == 0 {
        Seq::empty()
    } else {
        let rest = remove_game_spec(s.drop_last(), g);
        if s.last() == g {
            rest
        } else {
            rest.push(s.last())
        }
    }
}

/// List a game as open. Listing a game twice is a no-op.
pub fn add_current_game(index: &mut Vec<EntryId>, game_hash: EntryId)
    ensures
        final(index)@ == add_game_spec(old(index)@, game_hash),
{
    if !crate::contains_id(index, game_hash) {
        index.push(game_hash);
    }
}

/// Delist a game. Delisting a game that is not listed is a no-op.
pub fn remove_current_game(index: &mut Vec<EntryId>, game_hash: EntryId)
    ensures
        final(index)@ == remove_game_spec(old(index)@, game_hash),
{
    let mut kept: Vec<EntryId> = Vec::new();
    let n = index.len();
    let mut i: usize = 0;
    while i < n
        invariant
            i <= n,
            n == old(index)@.len(),
            index@ == old(index)@,
            kept@ == remove_game_spec(old(index)@.subrange(0, i as int), game_hash),
        decreases n - i,
    {
        proof {
            assert(old(index)@.subrange(0, i + 1).drop_last() =~= old(index)@.subrange(
                0,
                i as int,
            ));
            assert(old(index)@.subrange(0, i + 1).last() == old(index)@[i as int]);
        }
        let g = index[i];
        if g != game_hash {
            kept.push(g);
        }
        i += 1;
    }
    proof {
        assert(old(index)@.subrange(0, n as int) =~= old(index)@);
    }
    *index = kept;
}

/// The games of `games` that are still open, i.e. have no result record
/// among `game_results` — the read side of the index.
pub fn get_current_games_for(
    games: &Vec<EntryId>,
    game_results: &Vec<(EntryId, GameResultEntry)>,
) -> (r: Vec<EntryId>)
    ensures
        r@ == remaining_spec(games@, game_results@),
{
    let mut open: Vec<EntryId> = Vec::new();
    let n = games.len();
    let mut i: usize = 0;
    while i < n
        invariant
            i <= n,
            n == games@.len(),
            open@ == remaining_spec(games@.subrange(0, i as int), game_results@),
        decreases n - i,
    {
        let g = games[i];
        proof {
            assert(games@.subrange(0, i + 1).drop_last() =~= games@.subrange(0, i as int));
            assert(games@.subrange(0, i + 1).last() == games@[i as int]);
        }
        match crate::find_result_for_game(game_results, g) {
            Some(_) => {},
            None => {
                open.push(g);
            },
        }
        i += 1;
    }
    proof {
        assert(games@.subrange(0, n as int) =~= games@);
    }
    open
}

/// Listing a game twice leaves the index as listing it once does.
pub proof fn lemma_add_current_game_idempotent(s: Seq<EntryId>, g: EntryId)
    ensures
        add_game_spec(add_game_spec(s, g), g) == add_game_spec(s, g),
{
    if !s.contains(g) {
        assert(s.push(g)[s.len() as int] == g);
        assert(s.push(g).contains(g));
    }
}

/// After a removal, `g` no longer occurs.
proof fn lemma_remove_clean(s: Seq<EntryId>, g: EntryId)
    ensures
        forall|i: int| 0 <= i < remove_game_spec(s, g).len() ==> remove_game_spec(s, g)[i] != g,
    decreases s.len(),
{
    if s.len() > 0 {
        lemma_remove_clean(s.drop_last(), g);
        if s.last() != g {
            let rest = remove_game_spec(s.drop_last(), g);
            assert(forall|i: int| 0 <= i < rest.len() ==> rest.push(s.last())[i] == rest[i]);
            assert(rest.push(s.last())[rest.len() as int] == s.last());
        }
    }
}

/// Removing an id that does not occur changes nothing.
proof fn lemma_remove_absent(s: Seq<EntryId>, g: EntryId)
    requires
        forall|i: int| 0 <= i < s.len() ==> s[i] != g,
    ensures
        remove_game_spec(s, g) =~= s,
    decreases s.len(),
{
    if s.len() > 0 {
        assert(forall|i: int| 0 <= i < s.drop_last().len() ==> s.drop_last()[i] == s[i]);
        lemma_remove_absent(s.drop_last(), g);
        assert(remove_game_spec(s, g) =~= s.drop_last().push(s.last()));
        assert(s.drop_last().push(s.last()) =~= s);
    }
}

/// Delisting a game twice leaves the index as delisting it once does.
pub proof fn lemma_remove_current_game_idempotent(s: Seq<EntryId>, g: EntryId)
    ensures
        remove_game_spec(remove_game_spec(s, g), g) =~= remove_game_spec(s, g),
{
    lemma_remove_clean(s, g);
    lemma_remove_absent(remove_game_spec(s, g), g);
}

} // verus!
