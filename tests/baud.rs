use ping_viewer_next::baud::{
    baud_rate_candidates, select_best_baudrate, BaudrateCheckResult, BaudrateSearch,
};
use ping_viewer_next::error::ManagerError;
use std::collections::HashMap;

fn tally(messages: usize, errors: usize) -> BaudrateCheckResult {
    BaudrateCheckResult { messages_received: messages, parser_errors: errors }
}

#[test]
fn higher_rate_breaks_a_tie() {
    let mut results = HashMap::new();
    results.insert(115200, tally(10, 0));
    results.insert(230400, tally(10, 0));
    assert_eq!(select_best_baudrate(results), Some(230400));
}

#[test]
fn fewer_errors_win_over_a_higher_rate() {
    let mut results = HashMap::new();
    results.insert(115200, tally(10, 0));
    results.insert(230400, tally(10, 2));
    assert_eq!(select_best_baudrate(results), Some(115200));
}

#[test]
fn more_messages_win_first() {
    let mut results = HashMap::new();
    results.insert(9600, tally(7, 5));
    results.insert(2500000, tally(6, 0));
    assert_eq!(select_best_baudrate(results), Some(9600));
}

#[test]
fn silent_rates_are_never_chosen() {
    let mut results = HashMap::new();
    results.insert(9600, tally(0, 10));
    assert_eq!(select_best_baudrate(results), None);
    assert_eq!(select_best_baudrate(HashMap::new()), None);
}

#[test]
fn candidates_go_from_high_to_low() {
    assert_eq!(
        baud_rate_candidates(),
        vec![2500000, 2000000, 1843200, 921600, 460800, 230400, 115200, 9600]
    );
}

#[test]
fn flawless_check_ends_the_search() {
    let mut search = BaudrateSearch::new();
    assert_eq!(search.record(2500000, None), None);
    assert_eq!(search.record(2000000, Some(tally(3, 7))), None);
    assert_eq!(search.record(921600, Some(tally(10, 0))), Some(921600));
}

#[test]
fn search_without_replies_fails() {
    let mut search = BaudrateSearch::new();
    assert_eq!(search.record(115200, Some(tally(0, 10))), None);
    assert!(matches!(search.finish(), Err(ManagerError::Other(_))));
}

#[test]
fn search_keeps_the_best_partial_tally() {
    let mut search = BaudrateSearch::new();
    search.record(460800, Some(tally(4, 6)));
    search.record(230400, Some(tally(9, 1)));
    search.record(115200, Some(tally(9, 1)));
    assert!(matches!(search.finish(), Ok(230400)));
}

#[test]
fn tally_counts_replies_and_failures() {
    let mut t = BaudrateCheckResult::new();
    for _ in 0..10 {
        t.record(true);
    }
    assert!(t.is_flawless());
    t.record(false);
    assert_eq!(t, tally(10, 1));
    assert!(!t.is_flawless());
}
