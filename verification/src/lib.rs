//! A two-player, alternating-turn chess engine for a peer-replicated,
//! append-only store.
//!
//! Games are immutable creation records, moves form a singly linked chain
//! rooted at the game, and a finished game is settled by a two-party result
//! agreement: one player proposes a score, the opponent independently replays
//! the chain, re-derives the outcome, and countersigns on agreement. Chess
//! legality itself is delegated to an external rules oracle; everything this
//! crate decides (turn order, chain integrity, termination, score checking,
//! closure of open games) is verified.

use vstd::prelude::*;

pub mod agreement;
pub mod chain;
pub mod chess_game;
pub mod chess_game_result;
pub mod current_games;
pub mod elo;
pub mod invitation;
pub mod oracle;

use crate::agreement::{GameResultEntry, GameResultProposal};
use crate::chain::GameEntry;
use crate::elo::{ChessGameInfo, Score};

verus! {

/// A player's public key, reduced to the identity the engine reads of it.
pub type AgentId = u64;

/// A content hash addressing an entry (a game, a move or a result record).
pub type EntryId = u64;

/// Everything a submitted move or a proposed result can be rejected for.
///
/// `UnresolvedDependency` is retryable — the referenced entry has simply not
/// replicated yet — and must never be conflated with a hard rejection.
#[derive(Clone, Copy, Debug, PartialEq, Eq, Structural)]
pub enum ValidationError {
    /// A move, square or stored position that does not parse.
    MalformedInput,
    /// A move that fails turn order or the rules oracle's legality check.
    IllegalMove,
    /// The referenced predecessor is known but is no longer the chain head.
    StalePredecessor,
    /// No further moves are accepted once the game is terminal.
    GameAlreadyFinished,
    /// A proposed score that does not match the locally derived one.
    ScoreDisagreement,
    /// The referenced entry is not visible locally yet; retry later.
    UnresolvedDependency(EntryId),
    /// A game must be created with exactly two players.
    InvalidPlayerCount,
}

/// Whether `x` occurs in `v`.
pub(crate) fn contains_id(v: &Vec<u64>, x: u64) -> (r: bool)
    ensures
        r == v@.contains(x),
{
    let mut i: usize = 0;
    while i < v.len()
        invariant
            i <= v@.len(),
            forall|j: int| 0 <= j < i ==> v@[j] != x,
        decreases v@.len() - i,
    {
        if v[i] == x {
            assert(v@[i as int] == x);
            return true;
        }
        i += 1;
    }
    false
}

/// The first player of the pair that is not `me`, if any.
pub open spec fn find_opponent_spec(players: Seq<AgentId>, me: AgentId) -> Option<AgentId>
    decreases players.len(),
{
    if players.len() == 0 {
        None
    } else if players.first() != me {
        Some(players.first())
    } else {
        find_opponent_spec(players.drop_first(), me)
    }
}

/// The opponent recorded in a game: its first player other than
/// `my_pub_key`, or `None` for a degenerate game that has no other player.
pub fn get_opponent_for_game(game: &GameEntry, my_pub_key: AgentId) -> (r: Option<AgentId>)
    ensures
        r == find_opponent_spec(game.players@, my_pub_key),
{
    let n = game.players.len();
    proof {
        assert(game.players@.subrange(0, n as int) =~= game.players@);
    }
    let mut i: usize = 0;
    while i < n
        invariant
            i <= n,
            n == game.players@.len(),
            find_opponent_spec(game.players@, my_pub_key) == find_opponent_spec(
                game.players@.subrange(i as int, n as int),
                my_pub_key,
            ),
        decreases n - i,
    {
        let candidate = game.players[i];
        proof {
            assert(game.players@.subrange(i as int, n as int).first() == game.players@[i as int]);
            assert(game.players@.subrange(i as int, n as int).drop_first() =~= game.players@
                .subrange(i + 1, n as int));
        }
        if candidate != my_pub_key {
            return Some(candidate);
        }
        i += 1;
    }
    proof {
        assert(game.players@.subrange(n as int, n as int).len() == 0);
    }
    None
}

/// A score claim for a finished game, as the proposing player submits it.
#[derive(Clone, Copy, Debug, PartialEq, Eq, Structural)]
pub struct PublishResultInput {
    pub game_hash: EntryId,
    pub last_game_move_hash: EntryId,
    pub my_score: Score,
}

/// A game together with the result that closes it.
#[derive(Clone, Copy, Debug, PartialEq, Eq, Structural)]
pub struct CloseGameInput {
    pub game_hash: EntryId,
    pub game_result_hash: EntryId,
}

/// The proposer's half of result publication: turn a score claim into the
/// proposal that is sent to the opponent for countersigning. Fails only
/// when the game holds no player other than `my_pub_key`.
pub fn publish_result(
    input: PublishResultInput,
    game: &GameEntry,
    my_pub_key: AgentId,
    timestamp: i64,
) -> (r: Result<GameResultProposal, ValidationError>)
    ensures
        match find_opponent_spec(game.players@, my_pub_key) {
            Some(opponent) => r == Ok::<GameResultProposal, ValidationError>(
                GameResultProposal {
                    game_info: ChessGameInfo {
                        game_hash: input.game_hash,
                        last_game_move_hash: input.last_game_move_hash,
                    },
                    player_a: my_pub_key,
                    player_b: opponent,
                    score_player_a: input.my_score,
                    timestamp,
                },
            ),
            None => r == Err::<GameResultProposal, ValidationError>(
                ValidationError::InvalidPlayerCount,
            ),
        },
{
    let opponent = match get_opponent_for_game(game, my_pub_key) {
        Some(o) => o,
        None => {
            return Err(ValidationError::InvalidPlayerCount);
        },
    };
    Ok(
        agreement::propose_result(
            input.game_hash,
            input.last_game_move_hash,
            my_pub_key,
            opponent,
            input.my_score,
            timestamp,
        ),
    )
}

/// The liveness fallback: build the same record a countersigned agreement
/// would produce, but flagged as self-asserted. Fails only when the game
/// holds no player other than `my_pub_key`.
pub fn publish_game_result_and_flag(
    input: PublishResultInput,
    game: &GameEntry,
    my_pub_key: AgentId,
    timestamp: i64,
) -> (r: Result<GameResultEntry, ValidationError>)
    ensures
        match find_opponent_spec(game.players@, my_pub_key) {
            Some(opponent) => r == Ok::<GameResultEntry, ValidationError>(
                GameResultEntry {
                    game_info: ChessGameInfo {
                        game_hash: input.game_hash,
                        last_game_move_hash: input.last_game_move_hash,
                    },
                    player_a: my_pub_key,
                    player_b: opponent,
                    score_player_a: input.my_score,
                    timestamp,
                    countersigned: false,
                },
            ),
            None => r == Err::<GameResultEntry, ValidationError>(
                ValidationError::InvalidPlayerCount,
            ),
        },
{
    let proposal = match publish_result(input, game, my_pub_key, timestamp) {
        Ok(p) => p,
        Err(e) => {
            return Err(e);
        },
    };
    Ok(agreement::flag_result(&proposal))
}

/// The game a result record speaks about.
pub fn game_hash_from_result(game_result: &GameResultEntry) -> (r: EntryId)
    ensures
        r == game_result.game_info.game_hash,
{
    game_result.game_info.game_hash
}

/// The result record for `game_hash` among `results`, if one exists; when
/// several speak about the same game, the last one listed wins, matching a
/// map built by successive insertion.
pub open spec fn find_result_spec(
    results: Seq<(EntryId, GameResultEntry)>,
    game_hash: EntryId,
) -> Option<(EntryId, GameResultEntry)>
    decreases results.len(),
{
    if results.len() == 0 {
        None
    } else if results.last().1.game_info.game_hash == game_hash {
        Some(results.last())
    } else {
        find_result_spec(results.drop_last(), game_hash)
    }
}

/// Look a game's result up among the observed result records.
pub fn find_result_for_game(
    results: &Vec<(EntryId, GameResultEntry)>,
    game_hash: EntryId,
) -> (r: Option<(EntryId, GameResultEntry)>)
    ensures
        r == find_result_spec(results@, game_hash),
{
    let mut i: usize = results.len();
    proof {
        assert(results@.subrange(0, results@.len() as int) =~= results@);
    }
    while i > 0
        invariant
            i <= results@.len(),
            find_result_spec(results@, game_hash) == find_result_spec(
                results@.subrange(0, i as int),
                game_hash,
            ),
        decreases i,
    {
        i = i - 1;
        proof {
            assert(results@.subrange(0, i + 1).drop_last() =~= results@.subrange(0, i as int));
            assert(results@.subrange(0, i + 1).last() == results@[i as int]);
        }
        let entry = results[i];
        if entry.1.game_info.game_hash == game_hash {
            return Some(entry);
        }
    }
    None
}

/// Whether a result for `game_hash` already stands among the observed
/// records: re-submitting an already-agreed result for a game must be a
/// no-op, and this is the check that detects it.
pub fn result_exists_for_game(
    results: &Vec<(EntryId, GameResultEntry)>,
    game_hash: EntryId,
) -> (r: bool)
    ensures
        r == (find_result_spec(results@, game_hash) is Some),
{
    match find_result_for_game(results, game_hash) {
        Some(_) => true,
        None => false,
    }
}

/// An open game that now has a result and is ready to be closed.
#[derive(Clone, Copy, Debug, PartialEq, Eq, Structural)]
pub struct NonClosedGame {
    pub game_hash: EntryId,
    pub game_result: GameResultEntry,
    pub game_result_hash: EntryId,
}

/// The games of `current` that have a matching result, each paired with
/// it, in index order.
pub open spec fn close_plan_spec(
    current: Seq<EntryId>,
    results: Seq<(EntryId, GameResultEntry)>,
) -> Seq<NonClosedGame>
    decreases current.len(),
{
    if current.len() == 0 {
        Seq::empty()
    } else {
        let rest = close_plan_spec(current.drop_last(), results);
        match find_result_spec(results, current.last()) {
            Some(pr) => rest.push(
                NonClosedGame {
                    game_hash: current.last(),
                    game_result: pr.1,
                    game_result_hash: pr.0,
                },
            ),
            None => rest,
        }
    }
}

/// The games of `current` that stay open: those without a matching result.
pub open spec fn remaining_spec(
    current: Seq<EntryId>,
    results: Seq<(EntryId, GameResultEntry)>,
) -> Seq<EntryId>
    decreases current.len(),
{
    if current.len() == 0 {
        Seq::empty()
    } else {
        let rest = remaining_spec(current.drop_last(), results);
        match find_result_spec(results, current.last()) {
            Some(_) => rest,
            None => rest.push(current.last()),
        }
    }
}

/// What one closure pass does: which games to close, with their results,
/// and the index as it stands afterwards.
#[derive(Debug)]
pub struct ClosePlan {
    pub to_close: Vec<NonClosedGame>,
    pub remaining: Vec<EntryId>,
}

/// One closure pass: reconcile the open-games index against the observed
/// result records. Every open game with a matching result is scheduled for
/// closure — removal from the index plus a discovery link from the game to
/// its result — and the rest stay open.
pub fn close_games(
    my_current_games: &Vec<EntryId>,
    game_results: &Vec<(EntryId, GameResultEntry)>,
) -> (r: ClosePlan)
    ensures
        r.to_close@ == close_plan_spec(my_current_games@, game_results@),
        r.remaining@ == remaining_spec(my_current_games@, game_results@),
{
    let mut to_close: Vec<NonClosedGame> = Vec::new();
    let mut remaining: Vec<EntryId> = Vec::new();
    let n = my_current_games.len();
    let mut i: usize = 0;
    while i < n
        invariant
            i <= n,
            n == my_current_games@.len(),
            to_close@ == close_plan_spec(my_current_games@.subrange(0, i as int), game_results@),
            remaining@ == remaining_spec(my_current_games@.subrange(0, i as int), game_results@),
        decreases n - i,
    {
        let g = my_current_games[i];
        proof {
            assert(my_current_games@.subrange(0, i + 1).drop_last() =~= my_current_games@.subrange(
                0,
                i as int,
            ));
            assert(my_current_games@.subrange(0, i + 1).last() == my_current_games@[i as int]);
        }
        match find_result_for_game(game_results, g) {
            Some(pr) => {
                to_close.push(
                    NonClosedGame { game_hash: g, game_result: pr.1, game_result_hash: pr.0 },
                );
            },
            None => {
                remaining.push(g);
            },
        }
        i += 1;
    }
    proof {
        assert(my_current_games@.subrange(0, n as int) =~= my_current_games@);
    }
    ClosePlan { to_close, remaining }
}

/// Every game a closure pass leaves open has no matching result.
proof fn lemma_remaining_unmatched(current: Seq<EntryId>, results: Seq<(EntryId, GameResultEntry)>)
    ensures
        forall|i: int|
            0 <= i < remaining_spec(current, results).len() ==> find_result_spec(
                results,
                remaining_spec(current, results)[i],
            ) is None,
    decreases current.len(),
{
    if current.len() > 0 {
        lemma_remaining_unmatched(current.drop_last(), results);
    }
}

/// A set of games none of which has a result is a fixpoint of the pass.
proof fn lemma_unmatched_fixpoint(s: Seq<EntryId>, results: Seq<(EntryId, GameResultEntry)>)
    requires
        forall|i: int| 0 <= i < s.len() ==> find_result_spec(results, s[i]) is None,
    ensures
        close_plan_spec(s, results) =~= Seq::<NonClosedGame>::empty(),
        remaining_spec(s, results) =~= s,
    decreases s.len(),
{
    if s.len() > 0 {
        assert(forall|i: int|
            0 <= i < s.drop_last().len() ==> s.drop_last()[i] == s[i] && find_result_spec(
                results,
                s[i],
            ) is None);
        lemma_unmatched_fixpoint(s.drop_last(), results);
        assert(find_result_spec(results, s.last()) is None);
        assert(remaining_spec(s, results) =~= s.drop_last().push(s.last()));
        assert(s.drop_last().push(s.last()) =~= s);
    }
}

/// Closure is idempotent: running the pass again on the index it produced
/// closes nothing further — so no duplicate discovery links are ever
/// created — and leaves the index unchanged.
pub proof fn lemma_closure_idempotent(
    current: Seq<EntryId>,
    results: Seq<(EntryId, GameResultEntry)>,
)
    ensures
        close_plan_spec(remaining_spec(current, results), results) =~= Seq::<
            NonClosedGame,
        >::empty(),
        remaining_spec(remaining_spec(current, results), results) =~= remaining_spec(
            current,
            results,
        ),
{
    lemma_remaining_unmatched(current, results);
    lemma_unmatched_fixpoint(remaining_spec(current, results), results);
}

} // verus!
