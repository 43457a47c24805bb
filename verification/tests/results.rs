use turn_based_chess::agreement::{
    flag_result, respond_to_proposal, rejection_error, ProposalResponse,
};
use turn_based_chess::chain::{create_game, current_position, validate_move, GameEntry, GameMoveEntry};
use turn_based_chess::chess_game::{ChessGame, ChessGameMove};
use turn_based_chess::chess_game_result::{ChessGameResult, ChessResult};
use turn_based_chess::elo::{
    derive_score, ChessEloRating, ChessGameInfo, GameResultInfo, InvalidReason, RatingValidation,
    Score,
};
use turn_based_chess::{publish_game_result_and_flag, publish_result, PublishResultInput, ValidationError};

const WHITE: u64 = 1;
const BLACK: u64 = 2;
const GAME_HASH: u64 = 7;
const LAST_MOVE_HASH: u64 = 106;

fn place(from: &str, to: &str) -> ChessGameMove {
    ChessGameMove::PlacePiece {
        from: from.to_string(),
        to: to.to_string(),
        promotion: None,
    }
}

fn new_game() -> GameEntry {
    create_game(vec![WHITE, BLACK], 0).expect("two players")
}

fn play(game: &GameEntry, moves: &[(u64, &str, &str)]) -> (Vec<GameMoveEntry>, Vec<u64>) {
    let mut entries: Vec<GameMoveEntry> = Vec::new();
    let mut chain: Vec<u64> = Vec::new();
    for (k, (author, from, to)) in moves.iter().enumerate() {
        let state = current_position(game, &entries).expect("replay");
        let prev = chain.last().copied();
        let mv = place(from, to);
        let next = validate_move(game, &state, &chain, prev, *author, &mv).expect("legal move");
        entries.push(GameMoveEntry {
            game_hash: GAME_HASH,
            author_key: *author,
            previous_move_hash: prev,
            game_move: mv,
            resulting_game_state: next,
        });
        chain.push(100 + k as u64);
    }
    (entries, chain)
}

const SCHOLARS_MATE: [(u64, &str, &str); 7] = [
    (WHITE, "e2", "e4"),
    (BLACK, "e7", "e5"),
    (WHITE, "f1", "c4"),
    (BLACK, "b8", "c6"),
    (WHITE, "d1", "h5"),
    (BLACK, "g8", "f6"),
    (WHITE, "h5", "f7"),
];

/// A stalemate: black to move, not in check, with no legal move.
fn stalemate_state() -> ChessGame {
    ChessGame {
        white_address: WHITE,
        black_address: BLACK,
        resigned_player: None,
        board_state: "7k/5Q2/6K1/8/8/8/8/8 b - - 0 1".to_string(),
    }
}

fn checkmate_entry() -> GameMoveEntry {
    let game = new_game();
    let (mut entries, _) = play(&game, &SCHOLARS_MATE);
    entries.pop().unwrap()
}

#[test]
fn winner_score_mismatch_is_invalid() {
    // The oracle reports a win for white, yet white claims only a draw.
    let last = checkmate_entry();
    let verdict = ChessEloRating::validate_game_result(
        ChessGameInfo {
            game_hash: GAME_HASH,
            last_game_move_hash: LAST_MOVE_HASH,
        },
        GameResultInfo {
            player_a: WHITE,
            player_b: BLACK,
            score_player_a: Score::Draw,
        },
        Some(&last),
    )
    .unwrap();
    assert!(matches!(
        verdict,
        RatingValidation::Invalid(InvalidReason::WinnerScoreMismatch)
    ));
}

#[test]
fn loser_score_mismatch_is_invalid() {
    // Black lost but declares a win for itself.
    let last = checkmate_entry();
    let verdict = ChessEloRating::validate_game_result(
        ChessGameInfo {
            game_hash: GAME_HASH,
            last_game_move_hash: LAST_MOVE_HASH,
        },
        GameResultInfo {
            player_a: BLACK,
            player_b: WHITE,
            score_player_a: Score::Win,
        },
        Some(&last),
    )
    .unwrap();
    assert!(matches!(
        verdict,
        RatingValidation::Invalid(InvalidReason::LoserScoreMismatch)
    ));
}

#[test]
fn correct_scores_are_valid() {
    let last = checkmate_entry();
    let info = ChessGameInfo {
        game_hash: GAME_HASH,
        last_game_move_hash: LAST_MOVE_HASH,
    };
    for (a, b, score) in [(WHITE, BLACK, Score::Win), (BLACK, WHITE, Score::Loss)] {
        let verdict = ChessEloRating::validate_game_result(
            info,
            GameResultInfo {
                player_a: a,
                player_b: b,
                score_player_a: score,
            },
            Some(&last),
        )
        .unwrap();
        assert!(matches!(verdict, RatingValidation::Valid));
    }
}

#[test]
fn draw_demands_half_a_point() {
    let last = GameMoveEntry {
        game_hash: GAME_HASH,
        author_key: BLACK,
        previous_move_hash: Some(105),
        game_move: place("f8", "g8"),
        resulting_game_state: stalemate_state(),
    };
    let info = ChessGameInfo {
        game_hash: GAME_HASH,
        last_game_move_hash: LAST_MOVE_HASH,
    };
    let verdict = ChessEloRating::validate_game_result(
        info,
        GameResultInfo {
            player_a: WHITE,
            player_b: BLACK,
            score_player_a: Score::Win,
        },
        Some(&last),
    )
    .unwrap();
    assert!(matches!(
        verdict,
        RatingValidation::Invalid(InvalidReason::DrawScoreMismatch)
    ));
    let verdict = ChessEloRating::validate_game_result(
        info,
        GameResultInfo {
            player_a: WHITE,
            player_b: BLACK,
            score_player_a: Score::Draw,
        },
        Some(&last),
    )
    .unwrap();
    assert!(matches!(verdict, RatingValidation::Valid));
}

#[test]
fn ongoing_game_admits_no_result() {
    let game = new_game();
    let (entries, _) = play(&game, &[(WHITE, "e2", "e4")]);
    let verdict = ChessEloRating::validate_game_result(
        ChessGameInfo {
            game_hash: GAME_HASH,
            last_game_move_hash: 100,
        },
        GameResultInfo {
            player_a: WHITE,
            player_b: BLACK,
            score_player_a: Score::Win,
        },
        Some(&entries[0]),
    )
    .unwrap();
    assert!(matches!(
        verdict,
        RatingValidation::Invalid(InvalidReason::GameNotFinished)
    ));
}

#[test]
fn winner_outside_the_declared_pair_is_invalid() {
    // The state says white (player 1) won, but the result record names a
    // pair that does not include the winner: no declared score can be
    // consistent with that outcome, whatever it claims.
    let last = checkmate_entry();
    let info = ChessGameInfo {
        game_hash: GAME_HASH,
        last_game_move_hash: LAST_MOVE_HASH,
    };
    for score in [Score::Win, Score::Draw, Score::Loss] {
        let verdict = ChessEloRating::validate_game_result(
            info,
            GameResultInfo {
                player_a: BLACK,
                player_b: 3,
                score_player_a: score,
            },
            Some(&last),
        )
        .unwrap();
        assert!(matches!(
            verdict,
            RatingValidation::Invalid(InvalidReason::WinnerNotAPlayer)
        ));
    }

    // Through the agreement: a proposal naming a forged pair is rejected,
    // never countersigned.
    let proposal = turn_based_chess::agreement::propose_result(
        GAME_HASH,
        LAST_MOVE_HASH,
        5,
        6,
        Score::Win,
        1234,
    );
    let response = respond_to_proposal(&proposal, Some(&last)).unwrap();
    assert!(matches!(
        response,
        ProposalResponse::Reject(InvalidReason::WinnerNotAPlayer)
    ));
    assert_eq!(
        rejection_error(InvalidReason::WinnerNotAPlayer),
        ValidationError::ScoreDisagreement
    );
}

#[test]
fn missing_move_is_an_unresolved_dependency() {
    let verdict = ChessEloRating::validate_game_result(
        ChessGameInfo {
            game_hash: GAME_HASH,
            last_game_move_hash: LAST_MOVE_HASH,
        },
        GameResultInfo {
            player_a: WHITE,
            player_b: BLACK,
            score_player_a: Score::Win,
        },
        None,
    )
    .unwrap();
    match verdict {
        RatingValidation::UnresolvedDependencies(ids) => assert_eq!(ids, vec![LAST_MOVE_HASH]),
        other => panic!("expected unresolved dependencies, got {:?}", other),
    }
}

#[test]
fn malformed_state_is_an_error() {
    let last = GameMoveEntry {
        game_hash: GAME_HASH,
        author_key: WHITE,
        previous_move_hash: None,
        game_move: ChessGameMove::Resign,
        resulting_game_state: ChessGame {
            white_address: WHITE,
            black_address: BLACK,
            resigned_player: None,
            board_state: "garbage".to_string(),
        },
    };
    let verdict = ChessEloRating::validate_game_result(
        ChessGameInfo {
            game_hash: GAME_HASH,
            last_game_move_hash: LAST_MOVE_HASH,
        },
        GameResultInfo {
            player_a: WHITE,
            player_b: BLACK,
            score_player_a: Score::Win,
        },
        Some(&last),
    );
    assert_eq!(verdict.unwrap_err(), ValidationError::MalformedInput);
}

#[test]
fn score_mismatch_maps_to_score_disagreement() {
    assert_eq!(
        rejection_error(InvalidReason::WinnerScoreMismatch),
        ValidationError::ScoreDisagreement
    );
    assert_eq!(
        rejection_error(InvalidReason::LoserScoreMismatch),
        ValidationError::ScoreDisagreement
    );
    assert_eq!(
        rejection_error(InvalidReason::DrawScoreMismatch),
        ValidationError::ScoreDisagreement
    );
    assert_eq!(
        rejection_error(InvalidReason::GameNotFinished),
        ValidationError::ScoreDisagreement
    );
}

#[test]
fn rejected_proposal_names_the_mismatch() {
    let last = checkmate_entry();
    let game = new_game();
    // White claims only half a point for a position it won: the opponent
    // refuses to countersign.
    let proposal = publish_result(
        PublishResultInput {
            game_hash: GAME_HASH,
            last_game_move_hash: LAST_MOVE_HASH,
            my_score: Score::Draw,
        },
        &game,
        WHITE,
        1234,
    )
    .unwrap();
    let response = respond_to_proposal(&proposal, Some(&last)).unwrap();
    assert!(matches!(
        response,
        ProposalResponse::Reject(InvalidReason::WinnerScoreMismatch)
    ));
}

#[test]
fn countersigned_results_are_bit_identical() {
    let last = checkmate_entry();
    let game = new_game();
    let proposal = publish_result(
        PublishResultInput {
            game_hash: GAME_HASH,
            last_game_move_hash: LAST_MOVE_HASH,
            my_score: Score::Win,
        },
        &game,
        WHITE,
        1234,
    )
    .unwrap();

    // Two peers that resolved the same last move countersign independently.
    let first = match respond_to_proposal(&proposal, Some(&last)).unwrap() {
        ProposalResponse::Countersign(entry) => entry,
        other => panic!("expected countersignature, got {:?}", other),
    };
    let second = match respond_to_proposal(&proposal, Some(&last)).unwrap() {
        ProposalResponse::Countersign(entry) => entry,
        other => panic!("expected countersignature, got {:?}", other),
    };
    assert_eq!(first, second);

    // The flagged fallback carries the same fields, minus the signature.
    let flagged = flag_result(&proposal);
    assert!(!flagged.countersigned);
    assert_eq!(flagged.game_info, first.game_info);
    assert_eq!(flagged.player_a, first.player_a);
    assert_eq!(flagged.player_b, first.player_b);
    assert_eq!(flagged.score_player_a, first.score_player_a);
    assert_eq!(flagged.timestamp, first.timestamp);
}

#[test]
fn publish_and_flag_builds_the_self_asserted_record() {
    let game = new_game();
    let entry = publish_game_result_and_flag(
        PublishResultInput {
            game_hash: GAME_HASH,
            last_game_move_hash: LAST_MOVE_HASH,
            my_score: Score::Win,
        },
        &game,
        WHITE,
        999,
    )
    .unwrap();
    assert!(!entry.countersigned);
    assert_eq!(entry.player_a, WHITE);
    assert_eq!(entry.player_b, BLACK);
    assert_eq!(entry.game_info.game_hash, GAME_HASH);
    assert_eq!(entry.game_info.last_game_move_hash, LAST_MOVE_HASH);
    assert_eq!(entry.score_player_a, Score::Win);
    assert_eq!(entry.timestamp, 999);

    // A game in which the publisher has no opponent cannot be settled.
    let lonely = create_game(vec![WHITE, WHITE], 0).unwrap();
    let refused = publish_game_result_and_flag(
        PublishResultInput {
            game_hash: GAME_HASH,
            last_game_move_hash: LAST_MOVE_HASH,
            my_score: Score::Win,
        },
        &lonely,
        WHITE,
        999,
    );
    assert_eq!(refused.unwrap_err(), ValidationError::InvalidPlayerCount);
}

#[test]
fn summary_record_names_the_winning_color() {
    let last = checkmate_entry();
    let summary = ChessGameResult::from_state(&last.resulting_game_state, GAME_HASH, 42, 7)
        .unwrap()
        .unwrap();
    assert_eq!(summary.winner, ChessResult::White);
    assert_eq!(summary.white_player, WHITE);
    assert_eq!(summary.black_player, BLACK);
    assert_eq!(summary.game_hash, GAME_HASH);
    assert_eq!(summary.timestamp, 42);
    assert_eq!(summary.num_of_moves, 7);

    let drawn = ChessGameResult::from_state(&stalemate_state(), GAME_HASH, 42, 60)
        .unwrap()
        .unwrap();
    assert_eq!(drawn.winner, ChessResult::Draw);

    let game = new_game();
    let ongoing = current_position(&game, &Vec::new()).unwrap();
    assert_eq!(
        ChessGameResult::from_state(&ongoing, GAME_HASH, 42, 0).unwrap(),
        None
    );
}

#[test]
fn derive_score_matches_the_outcome() {
    let mate = checkmate_entry().resulting_game_state;
    assert_eq!(derive_score(&mate, WHITE).unwrap(), Some(Score::Win));
    assert_eq!(derive_score(&mate, BLACK).unwrap(), Some(Score::Loss));
    assert_eq!(
        derive_score(&stalemate_state(), WHITE).unwrap(),
        Some(Score::Draw)
    );
    let game = new_game();
    let ongoing = current_position(&game, &Vec::new()).unwrap();
    assert_eq!(derive_score(&ongoing, WHITE).unwrap(), None);

    // A proposal built from the derived score is always countersigned.
    let proposal = publish_result(
        PublishResultInput {
            game_hash: GAME_HASH,
            last_game_move_hash: LAST_MOVE_HASH,
            my_score: derive_score(&mate, WHITE).unwrap().unwrap(),
        },
        &game,
        WHITE,
        1,
    )
    .unwrap();
    let last = checkmate_entry();
    let response = respond_to_proposal(&proposal, Some(&last)).unwrap();
    assert!(matches!(response, ProposalResponse::Countersign(_)));
}

#[test]
fn scores_sum_to_one_point() {
    assert_eq!(Score::Win.opposite(), Score::Loss);
    assert_eq!(Score::Loss.opposite(), Score::Win);
    assert_eq!(Score::Draw.opposite(), Score::Draw);
}
