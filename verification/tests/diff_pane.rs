use ninjaedit_tui::diff_pane::{
    clamp_between, gap_row, gutter_width, line_numbers, marker, no_changes_message, place_pieces,
    settle_rows, unshown_message, widest, Button, HScroll, LineKind, Unchanged, Unshown,
};
use ninjaedit_tui::geometry::Rect;

#[test]
fn scrolling_right_stops_past_the_longest_visible_line() {
    let mut h = HScroll { capacity: 10, ..HScroll::default() };
    assert_eq!(h.max_col(30), 22);
    h.scroll_by(4, 30);
    assert_eq!(h.col, 4);
    h.scroll_by(100, 30);
    assert_eq!(h.col, 22);
    // Shorter lines now: a position past the limit stays put...
    h.scroll_by(4, 12);
    assert_eq!(h.col, 22);
    // ...until scrolled back, which stops at the left edge.
    h.scroll_by(-4, 12);
    assert_eq!(h.col, 18);
    h.scroll_by(-100, 12);
    assert_eq!(h.col, 0);
}

#[test]
fn the_scrollbar_thumb_follows_the_pointer() {
    let mut h = HScroll::default();
    assert!(h.measure(30, 10, Rect::new(5, 9, 10, 1)));
    assert_eq!(h.total, 32);
    assert_eq!(h.capacity, 10);
    h.scroll_to(10, 30);
    assert_eq!(h.col, 11);
    h.scroll_to(14, 30);
    assert_eq!(h.col, 20);
    h.scroll_to(5, 30);
    assert_eq!(h.col, 0);
    assert!(!h.needs_bar(10, 10));
    assert!(h.needs_bar(11, 10));
    assert!(!h.measure(3, 10, Rect::new(5, 9, 0, 1)));
    assert_eq!(h.bar, Rect::default());
}

#[test]
fn rows_settle_with_room_for_the_scrollbar_when_it_is_needed() {
    let widths = [5, 40, 5, 5, 5];
    let h = HScroll::default();
    let s = settle_rows(&widths, 3, 0, &h, 20);
    assert!(s.show_bar);
    assert_eq!((s.shown, s.scroll, s.extent), (2, 0, 40));
    let s = settle_rows(&widths, 3, 10, &h, 20);
    assert!(!s.show_bar, "the rows shown at the end are short");
    assert_eq!((s.shown, s.scroll, s.extent), (3, 2, 5));
    assert_eq!(widest(&widths, 1, 2), 40);
    assert_eq!(widest(&widths, 4, 10), 5);
    assert_eq!(clamp_between(50, 10, 30), 30);
    assert_eq!(clamp_between(5, 10, 30), 10);
    assert_eq!(clamp_between(5, 40, 30), 30);
}

#[test]
fn a_gap_row_offers_to_reveal_what_is_hidden() {
    let pieces = gap_row(3, 25, true, true);
    assert_eq!(
        pieces,
        vec![
            (" ▲ 10 ".to_string(), Some(Button::Up(3))),
            (" ▼ 10 ".to_string(), Some(Button::Down(3))),
            (" all ".to_string(), Some(Button::All(3))),
            ("⋯ 25 lines hidden".to_string(), None),
        ]
    );
    let pieces = gap_row(0, 1, false, true);
    assert_eq!(
        pieces,
        vec![
            (" ▼ 1 ".to_string(), Some(Button::Down(0))),
            ("⋯ 1 line hidden".to_string(), None),
        ]
    );
    // Pieces that don't fit are left out, the rest still tried.
    assert_eq!(place_pieces(&[6, 6, 20, 3], 1, 20), vec![Some(1), Some(8), None, Some(15)]);
}

#[test]
fn the_gutter_numbers_the_lines_from_one() {
    assert_eq!(gutter_width(9, 120), 1 + 1 + 3 + 1);
    assert_eq!(line_numbers(Some(0), Some(99), 2, 3), " 1 100");
    assert_eq!(line_numbers(None, Some(4), 2, 3), "     5");
    assert_eq!(line_numbers(Some(9), None, 2, 3), "10    ");
    assert_eq!(marker(LineKind::Added), "+");
    assert_eq!(marker(LineKind::Removed), "-");
    assert_eq!(marker(LineKind::Context), " ");
    assert_eq!(unshown_message(Unshown::Binary), "Binary file");
    assert_eq!(unshown_message(Unshown::Submodule), "Submodule: the commit it points at changed");
    assert_eq!(no_changes_message(Unchanged::Renamed), "Renamed without changes");
    assert_eq!(no_changes_message(Unchanged::Other), "No changes to the contents");
}
