use hedgegraph::candle::{Candle, MAX_CLOSE_MS};
use hedgegraph::data::Data;
use hedgegraph::loading::LoadingState;
use hedgegraph::plan::{PagePlan, PageRequest};
use hedgegraph::window::{Interval, TimeWindow, ValidationError};

fn candle(t_close: u64, high: u64, volume: u64) -> Candle {
    Candle { t_open: t_close, t_close, open: high, high, low: high, close: high, volume }
}

fn hour_window(start: u64, hours: u64) -> TimeWindow {
    TimeWindow::new(start, start + hours * 3_600_000, Interval::H1).unwrap()
}

#[test]
fn interval_durations_are_fixed() {
    assert_eq!(Interval::M1.duration_ms(), 60_000);
    assert_eq!(Interval::M5.duration_ms(), 300_000);
    assert_eq!(Interval::M15.duration_ms(), 900_000);
    assert_eq!(Interval::H1.duration_ms(), 3_600_000);
    assert_eq!(Interval::H4.duration_ms(), 14_400_000);
    assert_eq!(Interval::D1.duration_ms(), 86_400_000);
}

#[test]
fn window_rejects_degenerate_ranges() {
    assert_eq!(TimeWindow::new(5, 5, Interval::M1), Err(ValidationError::DegenerateWindow));
    assert_eq!(TimeWindow::new(10, 5, Interval::M1), Err(ValidationError::DegenerateWindow));
    assert!(TimeWindow::new(5, 6, Interval::M1).is_ok());
}

#[test]
fn page_count_is_ceiling_of_span_over_page_span() {
    // Four hours of hourly candles, two per page: exactly two pages.
    let w = hour_window(0, 4);
    assert_eq!(PagePlan::new(w, 2).page_count, 2);
    // A window smaller than one page still needs one page.
    let w = hour_window(0, 1);
    assert_eq!(PagePlan::new(w, 1000).page_count, 1);
    // An exact multiple does not round up.
    let w = hour_window(0, 2);
    assert_eq!(PagePlan::new(w, 2).page_count, 1);
    // One millisecond past the multiple needs one more page.
    let w = TimeWindow::new(0, 7_200_001, Interval::H1).unwrap();
    assert_eq!(PagePlan::new(w, 2).page_count, 2);
}

#[test]
fn first_request_starts_at_left_edge() {
    let w = hour_window(1_000_000, 4);
    let plan = PagePlan::new(w, 2);
    assert_eq!(plan.first_request(), PageRequest { from: 1_000_000, limit: 2 });
}

#[test]
fn progress_is_monotone_and_full_only_on_completion() {
    // Three pages of one hourly candle each.
    let plan = PagePlan::new(hour_window(0, 3), 1);
    assert_eq!(plan.page_count, 3);
    let mut ls = LoadingState::new(plan);
    let mut last = ls.progress_permille();
    assert_eq!(last, 0);
    for i in 0..3u64 {
        assert!(ls.progress_permille() < 1000);
        ls.record_success(vec![candle(i * 3_600_000, 1, 1)]);
        let p = ls.progress_permille();
        assert!(p >= last);
        last = p;
    }
    assert_eq!(last, 1000);
}

#[test]
fn progress_thirds_round_down() {
    let plan = PagePlan::new(hour_window(0, 3), 1);
    let mut ls = LoadingState::new(plan);
    ls.record_success(vec![candle(0, 1, 1)]);
    assert_eq!(ls.progress_permille(), 333);
    ls.record_success(vec![candle(3_600_000, 1, 1)]);
    assert_eq!(ls.progress_permille(), 666);
}

#[test]
fn completes_exactly_on_the_third_success() {
    let plan = PagePlan::new(hour_window(0, 3), 1);
    assert_eq!(plan.page_count, 3);
    let mut ls = LoadingState::new(plan);
    ls.record_success(vec![candle(0, 1, 1)]);
    assert!(ls.next_request().is_some());
    assert!(ls.progress_permille() < 1000);
    ls.record_success(vec![candle(3_600_000, 1, 1)]);
    assert!(ls.next_request().is_some());
    assert!(ls.progress_permille() < 1000);
    ls.record_success(vec![candle(7_200_000, 1, 1)]);
    assert_eq!(ls.progress_permille(), 1000);
    assert!(ls.next_request().is_none());
}

#[test]
fn empty_batch_forces_immediate_completion() {
    // Three pages planned, but the data runs out after the first.
    let plan = PagePlan::new(hour_window(0, 3), 1);
    assert_eq!(plan.page_count, 3);
    let mut ls = LoadingState::new(plan);
    ls.record_success(vec![candle(0, 1, 1)]);
    assert_eq!(ls.buffer.len(), 1);
    ls.record_success(vec![]);
    assert_eq!(ls.progress_permille(), 1000);
    assert!(ls.next_request().is_none());
    assert!(!ls.has_error);
    // The data received so far is kept.
    assert_eq!(ls.buffer.len(), 1);
}

#[test]
fn failure_is_sticky_until_reset() {
    let plan = PagePlan::new(hour_window(0, 3), 1);
    let mut ls = LoadingState::new(plan);
    ls.record_success(vec![candle(0, 1, 1)]);
    let before = ls.progress_permille();
    ls.record_failure();
    assert!(ls.has_error);
    assert!(ls.next_request().is_none());
    // A success arriving after the failure changes nothing.
    ls.record_success(vec![candle(3_600_000, 1, 1)]);
    assert_eq!(ls.progress_permille(), before);
    assert!(ls.next_request().is_none());
    assert_eq!(ls.buffer.len(), 1);
    // The partial buffer stays inspectable.
    assert_eq!(ls.buffer[0].t_close, 0);
}

#[test]
fn cursor_advances_one_interval_past_last_close() {
    let plan = PagePlan::new(hour_window(0, 4), 2);
    let mut ls = LoadingState::new(plan);
    assert_eq!(ls.next_request(), Some(PageRequest { from: 0, limit: 2 }));
    ls.record_success(vec![candle(0, 1, 1), candle(3_600_000, 1, 1)]);
    assert_eq!(ls.next_request(), Some(PageRequest { from: 7_200_000, limit: 2 }));
}

#[test]
fn four_hour_window_two_per_page_scenario() {
    // [2024-01-01T00:00, 2024-01-01T04:00) at one-hour candles, two per
    // page: two pages in all.
    let jan1: u64 = 1_704_067_200_000;
    let w = TimeWindow::new(jan1, jan1 + 14_400_000, Interval::H1).unwrap();
    let plan = PagePlan::new(w, 2);
    assert_eq!(plan.page_count, 2);
    let mut ls = LoadingState::new(plan);
    assert_eq!(ls.next_request(), Some(PageRequest { from: jan1, limit: 2 }));
    // First page: the two hourly candles up to the 02:00 boundary.
    ls.record_success(vec![candle(jan1, 1, 1), candle(jan1 + 3_600_000, 1, 1)]);
    assert_eq!(ls.next_request(), Some(PageRequest { from: jan1 + 7_200_000, limit: 2 }));
    // Second page completes the window.
    ls.record_success(vec![
        candle(jan1 + 7_200_000, 1, 1),
        candle(jan1 + 10_800_000, 1, 1),
    ]);
    assert_eq!(ls.progress_permille(), 1000);
    assert!(ls.next_request().is_none());
    assert_eq!(ls.buffer.len(), 4);
}

#[test]
fn cursor_survives_the_largest_close_time() {
    // A daily candle closing at the largest accepted close time steps
    // the cursor right to the integer ceiling without wrapping.
    let w = TimeWindow::new(MAX_CLOSE_MS - 86_400_000, u64::MAX, Interval::D1).unwrap();
    let plan = PagePlan::new(w, 1000);
    let mut ls = LoadingState::new(plan);
    ls.record_success(vec![candle(MAX_CLOSE_MS, 1, 1)]);
    assert_eq!(ls.cursor, u64::MAX);
}

#[test]
fn page_count_of_a_maximal_window() {
    let w = TimeWindow::new(0, u64::MAX, Interval::M1).unwrap();
    let plan = PagePlan::new(w, 1000);
    assert_eq!(plan.page_count, (u64::MAX - 1) / 60_000_000 + 1);
}

#[test]
fn aggregate_extrema() {
    let vals = vec![candle(100, 10, 100), candle(200, 25, 50), candle(300, 7, 200)];
    let data = Data::new(vals);
    assert_eq!(data.max_y(), 25);
    assert_eq!(data.max_vol(), 200);
    assert_eq!(data.max_x(), 300);
    assert_eq!(data.vals.len(), 3);
}

#[test]
fn aggregate_single_candle() {
    let data = Data::new(vec![candle(42, 9, 3)]);
    assert_eq!(data.max_y(), 9);
    assert_eq!(data.max_vol(), 3);
    assert_eq!(data.max_x(), 42);
}

#[test]
fn aggregate_ties_and_last_edge() {
    let data = Data::new(vec![candle(1, 5, 8), candle(2, 5, 8)]);
    assert_eq!(data.max_y(), 5);
    assert_eq!(data.max_vol(), 8);
    assert_eq!(data.max_x(), 2);
}
