use turn_based_chess::agreement::GameResultEntry;
use turn_based_chess::current_games::{
    add_current_game, get_current_games_for, remove_current_game,
};
use turn_based_chess::elo::{ChessGameInfo, Score};
use turn_based_chess::{
    close_games, find_result_for_game, game_hash_from_result, result_exists_for_game,
};

fn result_for(game_hash: u64, timestamp: i64) -> GameResultEntry {
    GameResultEntry {
        game_info: ChessGameInfo {
            game_hash,
            last_game_move_hash: game_hash + 1000,
        },
        player_a: 1,
        player_b: 2,
        score_player_a: Score::Win,
        timestamp,
        countersigned: true,
    }
}

#[test]
fn closure_closes_exactly_the_games_with_results() {
    let current = vec![7u64, 8, 9];
    let results = vec![(200u64, result_for(7, 1)), (201u64, result_for(9, 2))];
    let plan = close_games(&current, &results);
    assert_eq!(plan.to_close.len(), 2);
    assert_eq!(plan.to_close[0].game_hash, 7);
    assert_eq!(plan.to_close[0].game_result_hash, 200);
    assert_eq!(plan.to_close[1].game_hash, 9);
    assert_eq!(plan.to_close[1].game_result_hash, 201);
    assert_eq!(plan.remaining, vec![8]);
    assert_eq!(game_hash_from_result(&plan.to_close[0].game_result), 7);
}

#[test]
fn closure_is_idempotent() {
    let current = vec![7u64, 8, 9];
    let results = vec![(200u64, result_for(7, 1)), (201u64, result_for(9, 2))];
    let first = close_games(&current, &results);
    // Run the pass again on the index it produced: nothing further is
    // closed, so no duplicate links would be created, and the index stays.
    let second = close_games(&first.remaining, &results);
    assert!(second.to_close.is_empty());
    assert_eq!(second.remaining, first.remaining);
}

#[test]
fn later_result_for_the_same_game_wins() {
    let results = vec![(200u64, result_for(7, 1)), (201u64, result_for(7, 2))];
    let found = find_result_for_game(&results, 7).unwrap();
    assert_eq!(found.0, 201);
    assert_eq!(found.1.timestamp, 2);
    assert_eq!(find_result_for_game(&results, 8), None);
}

#[test]
fn resubmission_is_detected_by_the_existing_result() {
    let results = vec![(200u64, result_for(7, 1))];
    assert!(result_exists_for_game(&results, 7));
    assert!(!result_exists_for_game(&results, 8));
    assert!(!result_exists_for_game(&Vec::new(), 7));
}

#[test]
fn adding_a_game_twice_is_a_no_op() {
    let mut index: Vec<u64> = Vec::new();
    add_current_game(&mut index, 7);
    add_current_game(&mut index, 8);
    add_current_game(&mut index, 7);
    assert_eq!(index, vec![7, 8]);
}

#[test]
fn removing_a_game_twice_is_a_no_op() {
    let mut index: Vec<u64> = vec![7, 8, 9];
    remove_current_game(&mut index, 8);
    assert_eq!(index, vec![7, 9]);
    remove_current_game(&mut index, 8);
    assert_eq!(index, vec![7, 9]);
    remove_current_game(&mut index, 42);
    assert_eq!(index, vec![7, 9]);
}

#[test]
fn open_games_are_those_without_a_result() {
    let games = vec![7u64, 8, 9];
    let results = vec![(200u64, result_for(8, 1))];
    let open = get_current_games_for(&games, &results);
    assert_eq!(open, vec![7, 9]);
}
