//! The move chain: game creation, validation of a candidate move against
//! the chain as the validating peer sees it, and reconstruction of the
//! current position by replaying the chain from the root.
//!
//! Validation is stateless given the chain up to the candidate: any peer
//! that later re-runs it over the same chain derives the same verdict and
//! the same serialized position.

use vstd::prelude::*;

use crate::chess_game::{
    apply_move_spec, finished, ChessGame, ChessGameMove, GameMoveView, GameStateView,
};
use crate::oracle::{initial_board_fen, valid_board};
use crate::{AgentId, EntryId, ValidationError};

verus! {

/// A game's immutable creation record: the ordered player pair (index 0
/// moves first) and the creation time in milliseconds.
#[derive(Debug)]
pub struct GameEntry {
    pub players: Vec<AgentId>,
    pub created_at: i64,
}

/// One link of the move chain: the game it belongs to, its author, the
/// predecessor it extends (`None` for the first move), the move itself and
/// the state it results in.
#[derive(Debug)]
pub struct GameMoveEntry {
    pub game_hash: EntryId,
    pub author_key: AgentId,
    pub previous_move_hash: Option<EntryId>,
    pub game_move: ChessGameMove,
    pub resulting_game_state: ChessGame,
}

/// Create a game record; exactly two players are required, and their order
/// is significant.
pub fn create_game(players: Vec<AgentId>, created_at: i64) -> (r: Result<
    GameEntry,
    ValidationError,
>)
    ensures
        players@.len() == 2 ==> (r matches Ok(g) && g.players@ == players@ && g.created_at
            == created_at),
        players@.len() != 2 ==> r == Err::<GameEntry, ValidationError>(
            ValidationError::InvalidPlayerCount,
        ),
{
    if players.len() != 2 {
        return Err(ValidationError::InvalidPlayerCount);
    }
    Ok(GameEntry { players, created_at })
}

/// The id of the chain's accepted head, if any move has been accepted.
pub open spec fn chain_head(chain: Seq<EntryId>) -> Option<EntryId> {
    if chain.len() == 0 {
        None
    } else {
        Some(chain.last())
    }
}

/// The player whose turn the move with index `move_index` is: players
/// alternate strictly, starting from `players[0]`.
pub open spec fn turn_holder(players: Seq<AgentId>, move_index: int) -> AgentId {
    if move_index % 2 == 0 {
        players[0]
    } else {
        players[1]
    }
}

/// The verdict on a candidate move, given the validator's view of the
/// chain. In order: a terminal game is sealed; a predecessor that is not
/// the head is a retryable unresolved dependency if unknown, otherwise a
/// fork; the author must hold the turn; and finally the move itself is
/// ruled on.
pub open spec fn validate_move_spec(
    players: Seq<AgentId>,
    v: GameStateView,
    chain: Seq<EntryId>,
    prev: Option<EntryId>,
    author: AgentId,
    m: GameMoveView,
) -> Result<GameStateView, ValidationError> {
    if finished(v) {
        Err(ValidationError::GameAlreadyFinished)
    } else if prev != chain_head(chain) {
        match prev {
            Some(p) => if !chain.contains(p) {
                Err(ValidationError::UnresolvedDependency(p))
            } else {
                Err(ValidationError::StalePredecessor)
            },
            None => Err(ValidationError::StalePredecessor),
        }
    } else if author != turn_holder(players, chain.len() as int) {
        Err(ValidationError::IllegalMove)
    } else {
        apply_move_spec(v, m, author)
    }
}

/// Validate a candidate move against the validator's view of the chain and
/// compute the resulting state, enforcing exactly [`validate_move_spec`].
///
/// `state` must be the state reached by replaying `chain`; the caller
/// obtains it from [`current_position`].
pub fn validate_move(
    game: &GameEntry,
    state: &ChessGame,
    chain: &Vec<EntryId>,
    previous_move_hash: Option<EntryId>,
    author: AgentId,
    game_move: &ChessGameMove,
) -> (r: Result<ChessGame, ValidationError>)
    requires
        game.players@.len() == 2,
        valid_board(state@.board),
    ensures
        match validate_move_spec(
            game.players@,
            state@,
            chain@,
            previous_move_hash,
            author,
            game_move@,
        ) {
            Ok(v) => r matches Ok(g) && g@ == v,
            Err(e) => r == Err::<ChessGame, ValidationError>(e),
        },
{
    match state.status() {
        crate::chess_game::GameStatus::Finished => {
            return Err(ValidationError::GameAlreadyFinished);
        },
        crate::chess_game::GameStatus::Ongoing => {},
    }
    let head: Option<EntryId> = if chain.len() == 0 {
        None
    } else {
        Some(chain[chain.len() - 1])
    };
    if previous_move_hash != head {
        return match previous_move_hash {
            Some(p) => if !crate::contains_id(chain, p) {
                Err(ValidationError::UnresolvedDependency(p))
            } else {
                Err(ValidationError::StalePredecessor)
            },
            None => Err(ValidationError::StalePredecessor),
        };
    }
    let holder = if chain.len() % 2 == 0 {
        game.players[0]
    } else {
        game.players[1]
    };
    if author != holder {
        return Err(ValidationError::IllegalMove);
    }
    state.clone().apply_move(game_move.clone(), author)
}

/// Assemble the chain entry for a candidate move: validate it and record
/// the state it results in. The decision half of move submission — storing
/// the entry and linking it into the chain is the caller's.
pub fn make_move(
    game: &GameEntry,
    state: &ChessGame,
    chain: &Vec<EntryId>,
    author: AgentId,
    input: crate::chess_game::MakeMoveInput,
) -> (r: Result<GameMoveEntry, ValidationError>)
    requires
        game.players@.len() == 2,
        valid_board(state@.board),
    ensures
        match validate_move_spec(
            game.players@,
            state@,
            chain@,
            input.previous_move_hash,
            author,
            input.game_move@,
        ) {
            Ok(v) => r matches Ok(entry) && entry.game_hash == input.game_hash
                && entry.author_key == author && entry.previous_move_hash
                == input.previous_move_hash && entry.game_move@ == input.game_move@
                && entry.resulting_game_state@ == v,
            Err(e) => r == Err::<GameMoveEntry, ValidationError>(e),
        },
{
    let next = match validate_move(
        game,
        state,
        chain,
        input.previous_move_hash,
        author,
        &input.game_move,
    ) {
        Ok(next) => next,
        Err(e) => {
            return Err(e);
        },
    };
    Ok(
        GameMoveEntry {
            game_hash: input.game_hash,
            author_key: author,
            previous_move_hash: input.previous_move_hash,
            game_move: input.game_move,
            resulting_game_state: next,
        },
    )
}

/// The state of a freshly created game for an ordered player pair.
pub open spec fn initial_state_spec(players: Seq<AgentId>) -> GameStateView {
    GameStateView { white: players[0], black: players[1], resigned: None, board: initial_board_fen() }
}

/// The state reached by folding the move rule over `moves`, in chain
/// order, starting from the initial position; the first rejection, if any,
/// is the verdict on the whole chain.
pub open spec fn replay_spec(players: Seq<AgentId>, moves: Seq<GameMoveEntry>) -> Result<
    GameStateView,
    ValidationError,
>
    decreases moves.len(),
{
    if moves.len() == 0 {
        Ok(initial_state_spec(players))
    } else {
        match replay_spec(players, moves.drop_last()) {
            Ok(v) => apply_move_spec(v, moves.last().game_move@, moves.last().author_key),
            Err(e) => Err(e),
        }
    }
}

/// Once a prefix of the chain is rejected, the whole chain is rejected
/// with the same verdict.
proof fn lemma_replay_err_prefix(players: Seq<AgentId>, moves: Seq<GameMoveEntry>, i: int)
    requires
        0 <= i <= moves.len(),
        replay_spec(players, moves.subrange(0, i)) is Err,
    ensures
        replay_spec(players, moves) == replay_spec(players, moves.subrange(0, i)),
    decreases moves.len() - i,
{
    if i < moves.len() {
        assert(moves.subrange(0, i + 1).drop_last() =~= moves.subrange(0, i));
        lemma_replay_err_prefix(players, moves, i + 1);
    } else {
        assert(moves.subrange(0, moves.len() as int) =~= moves);
    }
}

/// Replay the full move chain from the root: the result is exactly
/// [`replay_spec`], the fold of the move rule over the chain from the
/// initial position — so every peer that replays the same chain derives
/// the same position, byte for byte.
pub fn current_position(game: &GameEntry, moves: &Vec<GameMoveEntry>) -> (r: Result<
    ChessGame,
    ValidationError,
>)
    requires
        game.players@.len() >= 2,
    ensures
        match replay_spec(game.players@, moves@) {
            Ok(v) => r matches Ok(g) && g@ == v,
            Err(e) => r == Err::<ChessGame, ValidationError>(e),
        },
{
    let mut state = ChessGame::initial(&game.players);
    let mut i: usize = 0;
    while i < moves.len()
        invariant
            i <= moves@.len(),
            game.players@.len() >= 2,
            replay_spec(game.players@, moves@.subrange(0, i as int)) == Ok::<
                GameStateView,
                ValidationError,
            >(state@),
        decreases moves@.len() - i,
    {
        let entry = &moves[i];
        let stepped = state.apply_move(entry.game_move.clone(), entry.author_key);
        proof {
            assert(moves@.subrange(0, i + 1).drop_last() =~= moves@.subrange(0, i as int));
            assert(moves@.subrange(0, i + 1).last() == moves@[i as int]);
        }
        match stepped {
            Ok(next) => {
                state = next;
            },
            Err(e) => {
                proof {
                    lemma_replay_err_prefix(game.players@, moves@, i + 1);
                }
                return Err(e);
            },
        }
        i += 1;
    }
    proof {
        assert(moves@.subrange(0, moves@.len() as int) =~= moves@);
    }
    Ok(state)
}

/// A move whose author does not hold the turn is rejected with
/// `IllegalMove`, whatever the move says and whether or not the board
/// would allow it — stated for candidates that extend the head of a game
/// that is still ongoing, since a sealed game or a stale predecessor is
/// reported as such before authorship is examined.
pub proof fn lemma_wrong_turn_rejected(
    players: Seq<AgentId>,
    v: GameStateView,
    chain: Seq<EntryId>,
    prev: Option<EntryId>,
    author: AgentId,
    m: GameMoveView,
)
    requires
        !finished(v),
        prev == chain_head(chain),
        author != turn_holder(players, chain.len() as int),
    ensures
        validate_move_spec(players, v, chain, prev, author, m) == Err::<
            GameStateView,
            ValidationError,
        >(ValidationError::IllegalMove),
{
}

/// Any submission on a finished game — in particular a `Resign` — fails
/// with `GameAlreadyFinished`, whoever sends it and whatever it references.
pub proof fn lemma_finished_game_is_sealed(
    players: Seq<AgentId>,
    v: GameStateView,
    chain: Seq<EntryId>,
    prev: Option<EntryId>,
    author: AgentId,
    m: GameMoveView,
)
    requires
        finished(v),
    ensures
        validate_move_spec(players, v, chain, prev, author, m) == Err::<
            GameStateView,
            ValidationError,
        >(ValidationError::GameAlreadyFinished),
{
}

} // verus!
