//! The two-party result agreement: one player proposes a score for a
//! finished game; the opponent independently replays the chain, re-derives
//! the outcome, and either countersigns — producing the final, jointly
//! committed result record — or rejects. A proposer left without a
//! responsive opponent may instead publish the same record flagged as
//! self-asserted, which downstream consumers must weigh differently.

use vstd::prelude::*;

use crate::chain::GameMoveEntry;
use crate::elo::{
    score_check_spec, ChessEloRating, ChessGameInfo, GameResultInfo, InvalidReason,
    RatingValidation, Score,
};
use crate::oracle::valid_board;
use crate::{AgentId, EntryId, ValidationError};

verus! {

/// A proposed result, sent to the opponent for counter-validation. The
/// proposer is `player_a`; the timestamp is fixed here so that the
/// countersigned record is identical on both sides.
#[derive(Clone, Copy, Debug, PartialEq, Eq, Structural)]
pub struct GameResultProposal {
    pub game_info: ChessGameInfo,
    pub player_a: AgentId,
    pub player_b: AgentId,
    pub score_player_a: Score,
    pub timestamp: i64,
}

/// A persisted game result. `countersigned` tells a jointly committed
/// record from a self-asserted, flagged one.
#[derive(Clone, Copy, Debug, PartialEq, Eq, Structural)]
pub struct GameResultEntry {
    pub game_info: ChessGameInfo,
    pub player_a: AgentId,
    pub player_b: AgentId,
    pub score_player_a: Score,
    pub timestamp: i64,
    pub countersigned: bool,
}

/// The opponent's answer to a proposal.
#[derive(Debug)]
pub enum ProposalResponse {
    /// The proposal checked out; here is the jointly committed record.
    Countersign(GameResultEntry),
    /// The proposal is provably wrong.
    Reject(InvalidReason),
    /// The referenced entries have not replicated here yet; retry later.
    Unresolved(Vec<EntryId>),
}

/// The score claim a proposal makes, in the validator's terms.
pub open spec fn proposal_info(p: GameResultProposal) -> GameResultInfo {
    GameResultInfo { player_a: p.player_a, player_b: p.player_b, score_player_a: p.score_player_a }
}

/// The jointly committed record a proposal turns into once countersigned.
pub open spec fn countersigned_of(p: GameResultProposal) -> GameResultEntry {
    GameResultEntry {
        game_info: p.game_info,
        player_a: p.player_a,
        player_b: p.player_b,
        score_player_a: p.score_player_a,
        timestamp: p.timestamp,
        countersigned: true,
    }
}

/// The self-asserted record a proposal turns into on the fallback path.
pub open spec fn flagged_of(p: GameResultProposal) -> GameResultEntry {
    GameResultEntry {
        game_info: p.game_info,
        player_a: p.player_a,
        player_b: p.player_b,
        score_player_a: p.score_player_a,
        timestamp: p.timestamp,
        countersigned: false,
    }
}

/// Package a score claim as a proposal for the opponent.
pub fn propose_result(
    game_hash: EntryId,
    last_game_move_hash: EntryId,
    me: AgentId,
    opponent: AgentId,
    my_score: Score,
    timestamp: i64,
) -> (p: GameResultProposal)
    ensures
        p == (GameResultProposal {
            game_info: ChessGameInfo { game_hash, last_game_move_hash },
            player_a: me,
            player_b: opponent,
            score_player_a: my_score,
            timestamp,
        }),
{
    GameResultProposal {
        game_info: ChessGameInfo { game_hash, last_game_move_hash },
        player_a: me,
        player_b: opponent,
        score_player_a: my_score,
        timestamp,
    }
}

/// The countersigning decision, taken on the opponent's side: re-derive
/// the outcome from the locally resolved last move and countersign exactly
/// when the declared score matches it. An error is returned only for a
/// resolved state whose position does not parse.
pub fn respond_to_proposal(proposal: &GameResultProposal, last_move: Option<&GameMoveEntry>) -> (r:
    Result<ProposalResponse, ValidationError>)
    ensures
        match last_move {
            None => r matches Ok(resp) && (resp matches ProposalResponse::Unresolved(ids) && ids@
                == seq![proposal.game_info.last_game_move_hash]),
            Some(m) => {
                if valid_board(m.resulting_game_state@.board) {
                    match score_check_spec(proposal_info(*proposal), m.resulting_game_state@) {
                        RatingValidation::Valid => r == Ok::<ProposalResponse, ValidationError>(
                            ProposalResponse::Countersign(countersigned_of(*proposal)),
                        ),
                        RatingValidation::Invalid(reason) => r == Ok::<
                            ProposalResponse,
                            ValidationError,
                        >(ProposalResponse::Reject(reason)),
                        RatingValidation::UnresolvedDependencies(_) => false,
                    }
                } else {
                    r == Err::<ProposalResponse, ValidationError>(ValidationError::MalformedInput)
                }
            },
        },
{
    let verdict = match ChessEloRating::validate_game_result(
        proposal.game_info,
        GameResultInfo {
            player_a: proposal.player_a,
            player_b: proposal.player_b,
            score_player_a: proposal.score_player_a,
        },
        last_move,
    ) {
        Ok(v) => v,
        Err(e) => {
            return Err(e);
        },
    };
    match verdict {
        RatingValidation::Valid => Ok(
            ProposalResponse::Countersign(
                GameResultEntry {
                    game_info: proposal.game_info,
                    player_a: proposal.player_a,
                    player_b: proposal.player_b,
                    score_player_a: proposal.score_player_a,
                    timestamp: proposal.timestamp,
                    countersigned: true,
                },
            ),
        ),
        RatingValidation::Invalid(reason) => Ok(ProposalResponse::Reject(reason)),
        RatingValidation::UnresolvedDependencies(ids) => Ok(ProposalResponse::Unresolved(ids)),
    }
}

/// Build the flagged, self-asserted record for an unresponsive opponent.
pub fn flag_result(proposal: &GameResultProposal) -> (r: GameResultEntry)
    ensures
        r == flagged_of(*proposal),
{
    GameResultEntry {
        game_info: proposal.game_info,
        player_a: proposal.player_a,
        player_b: proposal.player_b,
        score_player_a: proposal.score_player_a,
        timestamp: proposal.timestamp,
        countersigned: false,
    }
}

/// The chain-level error a rejected proposal surfaces as: every rejection
/// means the declared score does not match any locally derivable outcome,
/// which is a `ScoreDisagreement` — distinct from the retryable
/// `UnresolvedDependency` a missing move yields.
pub fn rejection_error(reason: InvalidReason) -> (e: ValidationError)
    ensures
        e == ValidationError::ScoreDisagreement,
{
    match reason {
        InvalidReason::GameNotFinished => ValidationError::ScoreDisagreement,
        InvalidReason::DrawScoreMismatch => ValidationError::ScoreDisagreement,
        InvalidReason::WinnerScoreMismatch => ValidationError::ScoreDisagreement,
        InvalidReason::LoserScoreMismatch => ValidationError::ScoreDisagreement,
        InvalidReason::WinnerNotAPlayer => ValidationError::ScoreDisagreement,
    }
}

/// Determinism of the agreement: the replayed position, the verdict on a
/// proposal, and the countersigned record are functions of the game's
/// player pair, its move chain and the proposal alone. Two peers that hold
/// the same chain and the same proposal therefore derive bit-identical
/// results — nothing in the derivation depends on which peer runs it, on
/// the clock, or on any other ambient state.
pub proof fn lemma_agreement_deterministic(
    players1: Seq<AgentId>,
    players2: Seq<AgentId>,
    moves1: Seq<GameMoveEntry>,
    moves2: Seq<GameMoveEntry>,
    p1: GameResultProposal,
    p2: GameResultProposal,
)
    requires
        players1 == players2,
        moves1 == moves2,
        p1 == p2,
    ensures
        crate::chain::replay_spec(players1, moves1) == crate::chain::replay_spec(
            players2,
            moves2,
        ),
        crate::chain::replay_spec(players1, moves1) matches Ok(v) ==> score_check_spec(
            proposal_info(p1),
            v,
        ) == score_check_spec(proposal_info(p2), v),
        countersigned_of(p1) == countersigned_of(p2),
{
}

} // verus!
