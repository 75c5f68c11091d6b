use cdc_poller::config::Config;
use cdc_poller::executor::QueryError;
use cdc_poller::executor::QueryOutcome;
use cdc_poller::executor::QueryPlan;
use cdc_poller::executor::plan_query;
use cdc_poller::poller::PollStep;
use cdc_poller::poller::Poller;
use cdc_poller::rows::CdcRow;
use cdc_poller::window::Window;
use cdc_poller::window::compute_window;

fn test_config() -> Config {
    Config::new(7_200_000, 3000, 300, 1_800_000)
}

#[test]
fn window_caught_up_collapses_to_safe_ceiling() {
    // low = 0, span = 1_800_000, delay = 300, now = 1_000_000:
    // candidate 1_800_000 exceeds the ceiling 999_700, so high collapses.
    let cfg = test_config();
    let w = compute_window(0, 1_000_000, &cfg);
    assert_eq!(w.low, 0);
    assert_eq!(w.high, 999_700);
}

#[test]
fn window_collapsed_narrow() {
    // Same but now = 500_000: high = 499_700, a narrow window.
    let cfg = test_config();
    let w = compute_window(0, 500_000, &cfg);
    assert_eq!(w.high, 499_700);
}

#[test]
fn window_behind_takes_full_span() {
    // Far behind the clock: the window takes one whole span.
    let cfg = test_config();
    let w = compute_window(1_000_000, 900_000_000, &cfg);
    assert_eq!(w.low, 1_000_000);
    assert_eq!(w.high, 2_800_000);
}

#[test]
fn window_without_safety_margin_is_empty_or_inverted() {
    // now - delay <= low: high does not pass low.
    let cfg = test_config();
    let w = compute_window(1_000_000, 1_000_000, &cfg);
    assert!(w.high <= w.low);
    assert!(w.is_empty());
    let exact = compute_window(1_000_000, 1_000_300, &cfg);
    assert_eq!(exact.high, 1_000_000);
    assert!(exact.is_empty());
}

#[test]
fn window_calculator_is_deterministic() {
    let cfg = test_config();
    let a = compute_window(123_456, 987_654_321, &cfg);
    let b = compute_window(123_456, 987_654_321, &cfg);
    assert_eq!(a, b);
}

#[test]
fn empty_window_plans_zero_rows_without_error() {
    let w = Window { low: 100, high: 100 };
    match plan_query(&w) {
        QueryPlan::Empty { rows } => assert_eq!(rows.len(), 0),
        QueryPlan::Fetch { .. } => panic!("an empty window must not reach the store"),
    }
}

#[test]
fn inverted_window_plans_zero_rows_without_error() {
    let w = Window { low: 200, high: 100 };
    match plan_query(&w) {
        QueryPlan::Empty { rows } => assert_eq!(rows.len(), 0),
        QueryPlan::Fetch { .. } => panic!("an inverted window must not reach the store"),
    }
}

#[test]
fn proper_window_plans_fetch_with_its_own_bounds() {
    let w = Window { low: 100, high: 900 };
    match plan_query(&w) {
        QueryPlan::Fetch { low, high } => {
            assert_eq!(low, 100);
            assert_eq!(high, 900);
        }
        QueryPlan::Empty { .. } => panic!("a proper window must be queried"),
    }
}

#[test]
fn poller_starts_one_backfill_behind() {
    let cfg = test_config();
    let p = Poller::new(10_000_000, cfg);
    assert_eq!(p.cursor, 2_800_000);
}

#[test]
fn successful_iteration_advances_cursor_and_sleeps() {
    let cfg = test_config();
    let mut p = Poller::new(10_000_000, cfg);
    let w = p.next_window(10_000_000);
    assert_eq!(w.low, 2_800_000);
    assert_eq!(w.high, 4_600_000);
    match p.apply_outcome(w, QueryOutcome::Completed(Vec::new())) {
        PollStep::Continue { rows, sleep_ms } => {
            assert_eq!(rows.len(), 0);
            assert_eq!(sleep_ms, 3000);
        }
        PollStep::Fatal(_) => panic!("a completed query must continue the loop"),
    }
    assert_eq!(p.cursor, 4_600_000);
}

#[test]
fn consecutive_windows_leave_no_gap() {
    let cfg = test_config();
    let mut p = Poller::new(10_000_000, cfg);
    let w1 = p.next_window(10_000_000);
    p.apply_outcome(w1, QueryOutcome::Completed(Vec::new()));
    let w2 = p.next_window(10_003_000);
    assert_eq!(w2.low, w1.high);
    p.apply_outcome(w2, QueryOutcome::Completed(Vec::new()));
    let w3 = p.next_window(10_006_000);
    assert_eq!(w3.low, w2.high);
}

#[test]
fn cursor_never_decreases_over_successful_iterations() {
    let cfg = test_config();
    let mut p = Poller::new(10_000_000, cfg);
    let mut now: i64 = 10_000_000;
    let mut last: i64 = p.cursor;
    for _ in 0..6 {
        let w = p.next_window(now);
        p.apply_outcome(w, QueryOutcome::Completed(Vec::new()));
        assert!(p.cursor >= last);
        assert_eq!(p.cursor, w.high);
        last = p.cursor;
        now += 3000;
    }
}

#[test]
fn failed_iteration_is_fatal_and_keeps_cursor() {
    let cfg = test_config();
    let mut p = Poller::new(10_000_000, cfg);
    let w = p.next_window(10_000_000);
    let before: i64 = p.cursor;
    let err = QueryError::new(String::from("connection reset"));
    match p.apply_outcome(w, QueryOutcome::Failed(err)) {
        PollStep::Fatal(e) => assert_eq!(e.message(), "connection reset"),
        PollStep::Continue { .. } => panic!("a failed query must end the loop"),
    }
    assert_eq!(p.cursor, before);
}

#[test]
fn row_with_null_column_passes_through_unchanged() {
    // A null column is a legitimate partial-change marker, not a fault.
    let cfg = test_config();
    let mut p = Poller::new(10_000_000, cfg);
    let w = p.next_window(10_000_000);
    let tombstone = CdcRow::from_columns(Some(1), Some(7), None);
    let full = CdcRow::from_columns(Some(2), Some(7), Some(40));
    let rows = vec![tombstone, full];
    match p.apply_outcome(w, QueryOutcome::Completed(rows)) {
        PollStep::Continue { rows, .. } => {
            assert_eq!(rows.len(), 2);
            assert_eq!(rows[0], CdcRow { ck: Some(1), pk: Some(7), v: None });
            assert_eq!(rows[1], full);
        }
        PollStep::Fatal(_) => panic!("rows with nulls must not fail the iteration"),
    }
}

#[test]
fn defaults_match_the_documented_durations() {
    let cfg = Config::defaults();
    assert_eq!(cfg.starting_backfill_ms, 7_200_000);
    assert_eq!(cfg.poll_interval_ms, 3000);
    assert_eq!(cfg.safety_delay_ms, 300);
    assert_eq!(cfg.window_span_ms, 1_800_000);
}
