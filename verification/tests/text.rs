use ninjaedit_tui::geometry::{inside_frame, scroll_to_show, Rect};
use ninjaedit_tui::text::{decimal, digits, is_blank, span_width, trim};

#[test]
fn numbers_are_written_in_decimal() {
    assert_eq!(decimal(0), "0");
    assert_eq!(decimal(7), "7");
    assert_eq!(decimal(1234567890), "1234567890");
    assert_eq!(decimal(usize::MAX), usize::MAX.to_string());
    assert_eq!(digits(0), 1);
    assert_eq!(digits(9), 1);
    assert_eq!(digits(10), 2);
    assert_eq!(digits(999), 3);
    assert_eq!(digits(usize::MAX), usize::MAX.to_string().len());
}

#[test]
fn text_is_measured_and_trimmed() {
    assert_eq!(span_width("abc"), 3);
    assert_eq!(span_width("日本"), 4);
    assert_eq!(span_width(""), 0);
    assert_eq!(trim("  a b \t\n"), "a b");
    assert_eq!(trim("\u{3000}x"), "x");
    assert_eq!(trim("   "), "");
    assert_eq!(trim("x"), "x");
    assert!(is_blank(" \t\r\n"));
    assert!(is_blank(""));
    assert!(!is_blank(" a "));
}

#[test]
fn rectangles_stay_on_the_screen() {
    let r = Rect::new(65530, 10, 20, 5);
    assert_eq!(r.width, 5);
    assert_eq!(r.right(), 65535);
    assert!(r.contains(65534, 14));
    assert!(!r.contains(65534, 15));
    assert!(Rect::new(1, 1, 0, 4).is_empty());
    assert_eq!(inside_frame(Rect::new(2, 3, 10, 4)), Rect::new(3, 4, 8, 2));
    assert_eq!(inside_frame(Rect::new(2, 3, 1, 1)).width, 0);
}

#[test]
fn a_list_scrolls_just_far_enough_to_show_a_row() {
    assert_eq!(scroll_to_show(0, 3, 5), 0);
    assert_eq!(scroll_to_show(0, 7, 5), 3);
    assert_eq!(scroll_to_show(6, 2, 5), 2);
}
