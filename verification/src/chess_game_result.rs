//! The chess-specific summary record of a finished game, as it is
//! published for discovery: who played which color, who won, and how long
//! the game ran.

use vstd::prelude::*;

use crate::chess_game::{result_of_spec, ChessGame, GameStateView};
use crate::oracle::valid_board;
use crate::{AgentId, EntryId, ValidationError};

verus! {

/// The color that won, or a draw.
#[derive(Clone, Copy, Debug, PartialEq, Eq, Structural)]
pub enum ChessResult {
    White,
    Black,
    Draw,
}

/// The published summary of a finished game. The timestamp is in
/// milliseconds.
#[derive(Clone, Copy, Debug, PartialEq, Eq, Structural)]
pub struct ChessGameResult {
    pub game_hash: EntryId,
    pub timestamp: i64,
    pub white_player: AgentId,
    pub black_player: AgentId,
    pub winner: ChessResult,
    pub num_of_moves: usize,
}

/// The color outcome of a state: the winner named by the game's result,
/// translated to the color that player holds.
pub open spec fn color_result_spec(v: GameStateView) -> Option<ChessResult> {
    match result_of_spec(v) {
        None => None,
        Some(crate::chess_game::ChessGameResult::Draw) => Some(ChessResult::Draw),
        Some(crate::chess_game::ChessGameResult::Winner(w)) => Some(
            if w == v.white {
                ChessResult::White
            } else {
                ChessResult::Black
            },
        ),
    }
}

impl ChessGameResult {
    /// Summarize a finished state into the published record; `None` while
    /// the game is still ongoing, an error only for a state whose position
    /// does not parse.
    pub fn from_state(
        state: &ChessGame,
        game_hash: EntryId,
        timestamp: i64,
        num_of_moves: usize,
    ) -> (r: Result<Option<ChessGameResult>, ValidationError>)
        ensures
            r == (if valid_board(state@.board) {
                Ok::<Option<ChessGameResult>, ValidationError>(
                    match color_result_spec(state@) {
                        None => None,
                        Some(winner) => Some(
                            ChessGameResult {
                                game_hash,
                                timestamp,
                                white_player: state@.white,
                                black_player: state@.black,
                                winner,
                                num_of_moves,
                            },
                        ),
                    },
                )
            } else {
                Err::<Option<ChessGameResult>, ValidationError>(ValidationError::MalformedInput)
            }),
    {
        let result = match state.get_result() {
            Ok(result) => result,
            Err(e) => {
                return Err(e);
            },
        };
        match result {
            None => Ok(None),
            Some(res) => {
                let winner = match res {
                    crate::chess_game::ChessGameResult::Draw => ChessResult::Draw,
                    crate::chess_game::ChessGameResult::Winner(w) => {
                        if w == state.white_address {
                            ChessResult::White
                        } else {
                            ChessResult::Black
                        }
                    },
                };
                Ok(
                    Some(
                        ChessGameResult {
                            game_hash,
                            timestamp,
                            white_player: state.white_address,
                            black_player: state.black_address,
                            winner,
                            num_of_moves,
                        },
                    ),
                )
            },
        }
    }
}

} // verus!
