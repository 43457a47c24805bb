//! The rating validator: before a game result may touch anyone's rating,
//! the declared score is checked against the outcome independently
//! re-derived from the referenced last move — a declared score is never
//! trusted.

use vstd::prelude::*;

use crate::chain::GameMoveEntry;
use crate::chess_game::{result_of_spec, ChessGameResult, GameStateView};
use crate::oracle::valid_board;
use crate::{AgentId, EntryId, ValidationError};

verus! {

/// A player's score in a finished game: 0, one half, or 1 point.
#[derive(Clone, Copy, Debug, PartialEq, Eq, Structural)]
pub enum Score {
    Loss,
    Draw,
    Win,
}

impl Score {
    /// The score of the other player; the two always sum to one point.
    pub open spec fn opposite_spec(self) -> Score {
        match self {
            Score::Loss => Score::Win,
            Score::Draw => Score::Draw,
            Score::Win => Score::Loss,
        }
    }

    /// The score in half-points: 0, 1 or 2.
    pub open spec fn half_points(self) -> int {
        match self {
            Score::Loss => 0,
            Score::Draw => 1,
            Score::Win => 2,
        }
    }

    /// The score of the other player.
    pub fn opposite(self) -> (r: Score)
        ensures
            r == self.opposite_spec(),
            self.half_points() + r.half_points() == 2,
    {
        match self {
            Score::Loss => Score::Win,
            Score::Draw => Score::Draw,
            Score::Win => Score::Loss,
        }
    }
}

/// What a result refers to: the game record and the last move of its chain.
#[derive(Clone, Copy, Debug, PartialEq, Eq, Structural)]
pub struct ChessGameInfo {
    pub game_hash: EntryId,
    pub last_game_move_hash: EntryId,
}

/// The declared outcome under validation: the ordered player pair of the
/// result record and the score its first player claims.
#[derive(Clone, Copy, Debug, PartialEq, Eq, Structural)]
pub struct GameResultInfo {
    pub player_a: AgentId,
    pub player_b: AgentId,
    pub score_player_a: Score,
}

/// Why a declared result is provably wrong.
#[derive(Clone, Copy, Debug, PartialEq, Eq, Structural)]
pub enum InvalidReason {
    /// The referenced state is not terminal, so no result can exist yet.
    GameNotFinished,
    /// The game is a draw but the declared score is not one half.
    DrawScoreMismatch,
    /// The declared winner's score is not 1.
    WinnerScoreMismatch,
    /// The declared loser's score is not 0.
    LoserScoreMismatch,
    /// The derived winner is neither declared player, so no declared score
    /// can be consistent with the terminal state.
    WinnerNotAPlayer,
}

/// The validator's verdict. `UnresolvedDependencies` means the referenced
/// entries have not replicated yet: the result is not provably wrong, and
/// the caller retries once they are visible.
#[derive(Debug)]
pub enum RatingValidation {
    Valid,
    Invalid(InvalidReason),
    UnresolvedDependencies(Vec<EntryId>),
}

/// The verdict on a declared score against the outcome derived from `v`:
/// a draw demands one half, a win demands 1 for the winner and 0 for the
/// loser, a winner outside the declared pair invalidates the result
/// whatever the score says, and an unfinished game admits no result at all.
pub open spec fn score_check_spec(info: GameResultInfo, v: GameStateView) -> RatingValidation {
    match result_of_spec(v) {
        None => RatingValidation::Invalid(InvalidReason::GameNotFinished),
        Some(res) => match res {
            ChessGameResult::Draw => if info.score_player_a != Score::Draw {
                RatingValidation::Invalid(InvalidReason::DrawScoreMismatch)
            } else {
                RatingValidation::Valid
            },
            ChessGameResult::Winner(w) => if w == info.player_a && info.score_player_a
                != Score::Win {
                RatingValidation::Invalid(InvalidReason::WinnerScoreMismatch)
            } else if w == info.player_b && info.score_player_a != Score::Loss {
                RatingValidation::Invalid(InvalidReason::LoserScoreMismatch)
            } else if w != info.player_a && w != info.player_b {
                RatingValidation::Invalid(InvalidReason::WinnerNotAPlayer)
            } else {
                RatingValidation::Valid
            },
        },
    }
}

/// The score `player` earned under outcome `res`: 1 for a win, one half
/// for a draw, 0 for a loss.
pub open spec fn score_of_spec(res: ChessGameResult, player: AgentId) -> Score {
    match res {
        ChessGameResult::Draw => Score::Draw,
        ChessGameResult::Winner(w) => if w == player {
            Score::Win
        } else {
            Score::Loss
        },
    }
}

/// Derive `me`'s score from a state: the proposer's half of the agreement.
/// `None` while the game is still ongoing; an error only for a state whose
/// position does not parse.
pub fn derive_score(state: &crate::chess_game::ChessGame, me: AgentId) -> (r: Result<
    Option<Score>,
    ValidationError,
>)
    ensures
        r == (if valid_board(state@.board) {
            Ok::<Option<Score>, ValidationError>(
                match result_of_spec(state@) {
                    None => None,
                    Some(res) => Some(score_of_spec(res, me)),
                },
            )
        } else {
            Err::<Option<Score>, ValidationError>(ValidationError::MalformedInput)
        }),
{
    let result = match state.get_result() {
        Ok(result) => result,
        Err(e) => {
            return Err(e);
        },
    };
    match result {
        None => Ok(None),
        Some(ChessGameResult::Draw) => Ok(Some(Score::Draw)),
        Some(ChessGameResult::Winner(w)) => {
            if w == me {
                Ok(Some(Score::Win))
            } else {
                Ok(Some(Score::Loss))
            }
        },
    }
}

/// The verdict reads nothing of the position beyond its derived outcome:
/// two states with the same outcome get the same verdict on any claim.
pub proof fn lemma_verdict_depends_on_outcome_alone(
    info: GameResultInfo,
    v1: GameStateView,
    v2: GameStateView,
)
    requires
        result_of_spec(v1) == result_of_spec(v2),
    ensures
        score_check_spec(info, v1) == score_check_spec(info, v2),
{
}

/// An honest proposal is owed success: when the game is finished, the two
/// declared players are distinct, the derived winner — if there is one —
/// is among them, and the claimed score is exactly the one derived from
/// the outcome, the validator accepts.
pub proof fn lemma_honest_score_accepted(info: GameResultInfo, v: GameStateView)
    requires
        info.player_a != info.player_b,
        result_of_spec(v) matches Some(res) && info.score_player_a == score_of_spec(
            res,
            info.player_a,
        ) && (res matches ChessGameResult::Winner(w) ==> w == info.player_a || w
            == info.player_b),
    ensures
        score_check_spec(info, v) == RatingValidation::Valid,
{
}

/// A score that contradicts the derived outcome is never validated.
pub proof fn lemma_dishonest_score_rejected(info: GameResultInfo, v: GameStateView)
    requires
        result_of_spec(v) matches Some(res) && info.score_player_a != score_of_spec(
            res,
            info.player_a,
        ),
    ensures
        score_check_spec(info, v) matches RatingValidation::Invalid(_),
{
}

/// A result whose derived winner is neither declared player is never
/// validated, whatever the declared score: no score of the declared pair
/// can be consistent with such a terminal state.
pub proof fn lemma_foreign_winner_rejected(info: GameResultInfo, v: GameStateView)
    requires
        result_of_spec(v) matches Some(ChessGameResult::Winner(w)) && w != info.player_a && w
            != info.player_b,
    ensures
        score_check_spec(info, v) == RatingValidation::Invalid(InvalidReason::WinnerNotAPlayer),
{
}

/// The chess instance of the pluggable rating validator.
pub struct ChessEloRating;

impl ChessEloRating {
    /// Validate a declared result. The caller resolves
    /// `game_info.last_game_move_hash` and passes the entry, or `None` if
    /// it has not replicated yet, which yields the retryable
    /// `UnresolvedDependencies` verdict; an error is returned only for a
    /// resolved state whose position does not parse.
    pub fn validate_game_result(
        game_info: ChessGameInfo,
        game_result_info: GameResultInfo,
        last_move: Option<&GameMoveEntry>,
    ) -> (r: Result<RatingValidation, ValidationError>)
        ensures
            match last_move {
                None => r matches Ok(v) && (v matches RatingValidation::UnresolvedDependencies(ids)
                    && ids@ == seq![game_info.last_game_move_hash]),
                Some(m) => r == (if valid_board(m.resulting_game_state@.board) {
                    Ok::<RatingValidation, ValidationError>(
                        score_check_spec(game_result_info, m.resulting_game_state@),
                    )
                } else {
                    Err::<RatingValidation, ValidationError>(ValidationError::MalformedInput)
                }),
            },
    {
        match last_move {
            None => Ok(
                RatingValidation::UnresolvedDependencies(vec![game_info.last_game_move_hash]),
            ),
            Some(m) => {
                let result = match m.resulting_game_state.get_result() {
                    Ok(result) => result,
                    Err(e) => {
                        return Err(e);
                    },
                };
                match result {
                    None => Ok(RatingValidation::Invalid(InvalidReason::GameNotFinished)),
                    Some(ChessGameResult::Draw) => {
                        if game_result_info.score_player_a != Score::Draw {
                            Ok(RatingValidation::Invalid(InvalidReason::DrawScoreMismatch))
                        } else {
                            Ok(RatingValidation::Valid)
                        }
                    },
                    Some(ChessGameResult::Winner(w)) => {
                        if w == game_result_info.player_a && game_result_info.score_player_a
                            != Score::Win {
                            Ok(RatingValidation::Invalid(InvalidReason::WinnerScoreMismatch))
                        } else if w == game_result_info.player_b
                            && game_result_info.score_player_a != Score::Loss {
                            Ok(RatingValidation::Invalid(InvalidReason::LoserScoreMismatch))
                        } else if w != game_result_info.player_a && w != game_result_info.player_b {
                            Ok(RatingValidation::Invalid(InvalidReason::WinnerNotAPlayer))
                        } else {
                            Ok(RatingValidation::Valid)
                        }
                    },
                }
            },
        }
    }
}

} // verus!
