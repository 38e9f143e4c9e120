use ninjaedit_tui::clicks::ClickTracker;
use std::time::{Duration, Instant};

#[test]
fn counts_quick_presses_on_one_cell() {
    let start = Instant::now();
    let mut clicks = ClickTracker::default();
    assert_eq!(clicks.press_at(3, 4, start), 1);
    assert_eq!(clicks.press_at(3, 4, start + Duration::from_millis(100)), 2);
    // A third press starts over rather than making a triple.
    assert_eq!(clicks.press_at(3, 4, start + Duration::from_millis(200)), 1);
    assert_eq!(clicks.press_at(3, 4, start + Duration::from_millis(300)), 2);
    // Too slow, or elsewhere, is a single click again.
    assert_eq!(clicks.press_at(3, 4, start + Duration::from_secs(2)), 1);
    assert_eq!(clicks.press_at(3, 5, start + Duration::from_secs(2)), 1);
    assert_eq!(clicks.press_at(3, 5, start + Duration::from_secs(2)), 2);
}

#[test]
fn half_a_second_is_still_a_double_click_and_a_moment_more_is_not() {
    let start = Instant::now();
    let mut clicks = ClickTracker::default();
    assert_eq!(clicks.press_at(1, 1, start), 1);
    assert_eq!(clicks.press_at(1, 1, start + Duration::from_millis(500)), 2);
    let mut clicks = ClickTracker::default();
    assert_eq!(clicks.press_at(1, 1, start), 1);
    assert_eq!(
        clicks.press_at(1, 1, start + Duration::from_millis(500) + Duration::from_nanos(1)),
        1
    );
    // A press now, right after one, is on the clock too.
    let mut clicks = ClickTracker::default();
    assert_eq!(clicks.press(7, 7), 1);
    assert!(clicks.press(7, 8) == 1);
}

#[test]
fn a_run_of_quick_presses_alternates_single_and_double() {
    let start = Instant::now();
    let mut clicks = ClickTracker::default();
    let counts: Vec<u32> = (0..7)
        .map(|i| clicks.press_at(8, 2, start + Duration::from_millis(400 * i)))
        .collect();
    assert_eq!(counts, vec![1, 2, 1, 2, 1, 2, 1]);
}

#[test]
fn a_press_now_counts_one_or_two() {
    let mut clicks = ClickTracker::default();
    assert_eq!(clicks.press(1, 1), 1);
    let second = clicks.press(1, 1);
    assert!(second == 1 || second == 2);
    assert_eq!(clicks.press(2, 1), 1);
}
