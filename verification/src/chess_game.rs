//! Chess game state: the position, the two players, and a possible
//! resignation, together with the move application and outcome rules.

use vstd::prelude::*;

use crate::oracle;
use crate::oracle::{
    board_after, initial_board_fen, move_ok, square_index_spec, status_of, valid_board,
    PositionStatus, PromotionPiece, Side,
};
use crate::{AgentId, ValidationError};

verus! {

/// The state of one game: the fixed player pair (index 0, white, moves
/// first), who resigned if anyone, and the serialized position.
#[derive(Debug)]
pub struct ChessGame {
    pub white_address: AgentId,
    pub black_address: AgentId,
    pub resigned_player: Option<AgentId>,
    pub board_state: String,
}

/// The mathematical image of a [`ChessGame`].
pub struct GameStateView {
    pub white: AgentId,
    pub black: AgentId,
    pub resigned: Option<AgentId>,
    pub board: Seq<char>,
}

impl View for ChessGame {
    type V = GameStateView;

    open spec fn view(&self) -> GameStateView {
        GameStateView {
            white: self.white_address,
            black: self.black_address,
            resigned: self.resigned_player,
            board: self.board_state@,
        }
    }
}

/// A move as submitted by a player: either placing a piece (squares are
/// named in algebraic form, the promotion piece by its English name), or
/// resigning, which any game interprets uniformly.
#[derive(Debug)]
pub enum ChessGameMove {
    PlacePiece { from: String, to: String, promotion: Option<String> },
    Resign,
}

/// The mathematical image of a [`ChessGameMove`].
pub enum GameMoveView {
    PlacePiece { from: Seq<char>, to: Seq<char>, promotion: Option<Seq<char>> },
    Resign,
}

impl View for ChessGameMove {
    type V = GameMoveView;

    open spec fn view(&self) -> GameMoveView {
        match self {
            ChessGameMove::PlacePiece { from, to, promotion } => GameMoveView::PlacePiece {
                from: from@,
                to: to@,
                promotion: match promotion {
                    Some(p) => Some(p@),
                    None => None,
                },
            },
            ChessGameMove::Resign => GameMoveView::Resign,
        }
    }
}

impl Clone for ChessGame {
    fn clone(&self) -> (r: Self)
        ensures
            r == *self,
    {
        ChessGame {
            white_address: self.white_address,
            black_address: self.black_address,
            resigned_player: self.resigned_player,
            board_state: self.board_state.clone(),
        }
    }
}

impl Clone for ChessGameMove {
    fn clone(&self) -> (r: Self)
        ensures
            r == *self,
    {
        match self {
            ChessGameMove::PlacePiece { from, to, promotion } => ChessGameMove::PlacePiece {
                from: from.clone(),
                to: to.clone(),
                promotion: match promotion {
                    Some(p) => Some(p.clone()),
                    None => None,
                },
            },
            ChessGameMove::Resign => ChessGameMove::Resign,
        }
    }
}

/// The outcome of a finished game: a draw, or a win attributed to a player.
#[derive(Clone, Copy, Debug, PartialEq, Eq, Structural)]
pub enum ChessGameResult {
    Draw,
    Winner(AgentId),
}

/// Whether a game accepts further moves.
#[derive(Clone, Copy, Debug, PartialEq, Eq, Structural)]
pub enum GameStatus {
    Ongoing,
    Finished,
}

/// Input of a move submission: the game, the author's view of the chain
/// head, and the move itself.
pub struct MakeMoveInput {
    pub game_hash: crate::EntryId,
    pub previous_move_hash: Option<crate::EntryId>,
    pub game_move: ChessGameMove,
}

/// A game is terminal once a player has resigned or the oracle classifies
/// the position as terminal.
pub open spec fn finished(v: GameStateView) -> bool {
    v.resigned is Some || status_of(v.board) != PositionStatus::Ongoing
}

/// The promotion piece named by `s`, if any.
pub open spec fn parse_promotion_spec(s: Seq<char>) -> Option<PromotionPiece> {
    if s == "Queen"@ {
        Some(PromotionPiece::Queen)
    } else if s == "Rook"@ {
        Some(PromotionPiece::Rook)
    } else if s == "Knight"@ {
        Some(PromotionPiece::Knight)
    } else if s == "Bishop"@ {
        Some(PromotionPiece::Bishop)
    } else {
        None
    }
}

/// The effect of a `PlacePiece` move on a non-terminal state: squares and
/// promotion must parse, the oracle must accept the move, and the position
/// advances to the oracle's successor position.
pub open spec fn place_piece_spec(
    v: GameStateView,
    from: Seq<char>,
    to: Seq<char>,
    promotion: Option<Seq<char>>,
) -> Result<GameStateView, ValidationError> {
    match square_index_spec(from) {
        None => Err(ValidationError::MalformedInput),
        Some(f) => match square_index_spec(to) {
            None => Err(ValidationError::MalformedInput),
            Some(t) => {
                let parsed = match promotion {
                    None => Some(None),
                    Some(ps) => match parse_promotion_spec(ps) {
                        None => None,
                        Some(pp) => Some(Some(pp)),
                    },
                };
                match parsed {
                    None => Err(ValidationError::MalformedInput),
                    Some(pp) => if !move_ok(v.board, f, t, pp) {
                        Err(ValidationError::IllegalMove)
                    } else {
                        Ok(GameStateView { board: board_after(v.board, f, t, pp), ..v })
                    },
                }
            },
        },
    }
}

/// The full move rule: a state that does not parse is rejected, a terminal
/// game is sealed, a resignation is attributed to its author, and a piece
/// placement is ruled on by the oracle.
pub open spec fn apply_move_spec(v: GameStateView, m: GameMoveView, author: AgentId) -> Result<
    GameStateView,
    ValidationError,
> {
    if !valid_board(v.board) {
        Err(ValidationError::MalformedInput)
    } else if finished(v) {
        Err(ValidationError::GameAlreadyFinished)
    } else {
        match m {
            GameMoveView::PlacePiece { from, to, promotion } => place_piece_spec(
                v,
                from,
                to,
                promotion,
            ),
            GameMoveView::Resign => Ok(GameStateView { resigned: Some(author), ..v }),
        }
    }
}

/// The outcome of `v`: a resignation hands the win to the opponent whatever
/// the position says; otherwise the oracle's classification decides.
pub open spec fn result_of_spec(v: GameStateView) -> Option<ChessGameResult> {
    match v.resigned {
        Some(player) => Some(
            ChessGameResult::Winner(
                if player == v.white {
                    v.black
                } else {
                    v.white
                },
            ),
        ),
        None => match status_of(v.board) {
            PositionStatus::Ongoing => None,
            PositionStatus::Stalemate => Some(ChessGameResult::Draw),
            PositionStatus::Checkmate(side) => Some(
                ChessGameResult::Winner(
                    if side == Side::White {
                        v.black
                    } else {
                        v.white
                    },
                ),
            ),
        },
    }
}

/// The promotion piece named by `piece`, or `MalformedInput`.
pub fn promotion_piece(piece: &String) -> (r: Result<PromotionPiece, ValidationError>)
    ensures
        match parse_promotion_spec(piece@) {
            Some(p) => r == Ok::<PromotionPiece, ValidationError>(p),
            None => r == Err::<PromotionPiece, ValidationError>(ValidationError::MalformedInput),
        },
{
    if *piece == "Queen".to_owned() {
        Ok(PromotionPiece::Queen)
    } else if *piece == "Rook".to_owned() {
        Ok(PromotionPiece::Rook)
    } else if *piece == "Knight".to_owned() {
        Ok(PromotionPiece::Knight)
    } else if *piece == "Bishop".to_owned() {
        Ok(PromotionPiece::Bishop)
    } else {
        Err(ValidationError::MalformedInput)
    }
}

impl ChessGame {
    /// The initial state for an ordered player pair: `players[0]` is white
    /// and moves first.
    pub fn initial(players: &Vec<AgentId>) -> (r: ChessGame)
        requires
            players@.len() >= 2,
        ensures
            r@ == (GameStateView {
                white: players@[0],
                black: players@[1],
                resigned: None,
                board: initial_board_fen(),
            }),
            valid_board(r@.board),
    {
        ChessGame {
            white_address: players[0],
            black_address: players[1],
            resigned_player: None,
            board_state: oracle::initial_board(),
        }
    }

    /// Whether this state's serialized position is one the oracle accepts.
    pub fn board_is_valid(&self) -> (r: bool)
        ensures
            r == valid_board(self@.board),
    {
        self.board_state.as_str().is_ascii() && oracle::board_parses(self.board_state.as_str())
    }

    /// Apply one move, enforcing exactly [`apply_move_spec`].
    pub fn apply_move(self, game_move: ChessGameMove, author: AgentId) -> (r: Result<
        ChessGame,
        ValidationError,
    >)
        ensures
            match apply_move_spec(self@, game_move@, author) {
                Ok(v) => r matches Ok(g) && g@ == v,
                Err(e) => r == Err::<ChessGame, ValidationError>(e),
            },
    {
        if !self.board_is_valid() {
            return Err(ValidationError::MalformedInput);
        }
        if self.resigned_player.is_some() {
            return Err(ValidationError::GameAlreadyFinished);
        }
        let st = oracle::board_status(self.board_state.as_str());
        if st != PositionStatus::Ongoing {
            return Err(ValidationError::GameAlreadyFinished);
        }
        match game_move {
            ChessGameMove::PlacePiece { from, to, promotion } => {
                let f = match oracle::parse_square(from.as_str()) {
                    Some(f) => f,
                    None => {
                        return Err(ValidationError::MalformedInput);
                    },
                };
                let t = match oracle::parse_square(to.as_str()) {
                    Some(t) => t,
                    None => {
                        return Err(ValidationError::MalformedInput);
                    },
                };
                let pp = match &promotion {
                    None => None,
                    Some(ps) => match promotion_piece(ps) {
                        Ok(p) => Some(p),
                        Err(e) => {
                            return Err(e);
                        },
                    },
                };
                if !oracle::legal_move(self.board_state.as_str(), f, t, pp) {
                    return Err(ValidationError::IllegalMove);
                }
                let next = oracle::apply_to_board(self.board_state.as_str(), f, t, pp);
                Ok(
                    ChessGame {
                        white_address: self.white_address,
                        black_address: self.black_address,
                        resigned_player: self.resigned_player,
                        board_state: next,
                    },
                )
            },
            ChessGameMove::Resign => Ok(
                ChessGame {
                    white_address: self.white_address,
                    black_address: self.black_address,
                    resigned_player: Some(author),
                    board_state: self.board_state,
                },
            ),
        }
    }

    /// Whether the game still accepts moves.
    pub fn status(&self) -> (r: GameStatus)
        requires
            valid_board(self@.board),
        ensures
            r == (if finished(self@) {
                GameStatus::Finished
            } else {
                GameStatus::Ongoing
            }),
    {
        if self.resigned_player.is_some() {
            return GameStatus::Finished;
        }
        match oracle::board_status(self.board_state.as_str()) {
            PositionStatus::Ongoing => GameStatus::Ongoing,
            _ => GameStatus::Finished,
        }
    }

    /// The game's outcome, or `None` while it is still ongoing; an error
    /// only for a state whose position does not parse.
    pub fn get_result(&self) -> (r: Result<Option<ChessGameResult>, ValidationError>)
        ensures
            r == (if valid_board(self@.board) {
                Ok::<Option<ChessGameResult>, ValidationError>(result_of_spec(self@))
            } else {
                Err::<Option<ChessGameResult>, ValidationError>(ValidationError::MalformedInput)
            }),
    {
        if !self.board_is_valid() {
            return Err(ValidationError::MalformedInput);
        }
        if let Some(player) = self.resigned_player {
            let winner = if player == self.white_address {
                self.black_address
            } else {
                self.white_address
            };
            return Ok(Some(ChessGameResult::Winner(winner)));
        }
        match oracle::board_status(self.board_state.as_str()) {
            PositionStatus::Ongoing => Ok(None),
            PositionStatus::Stalemate => Ok(Some(ChessGameResult::Draw)),
            PositionStatus::Checkmate(side) => {
                let winner = if side == Side::White {
                    self.black_address
                } else {
                    self.white_address
                };
                Ok(Some(ChessGameResult::Winner(winner)))
            },
        }
    }
}

} // verus!
