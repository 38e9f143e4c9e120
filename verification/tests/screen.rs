use ninjaedit_tui::geometry::Rect;
use ninjaedit_tui::screen::{layout_content, screen_layout, split_rows};
use ninjaedit_tui::status_bar::{
    configuration_segment, lay_out_status, left_segment, position_segment, scrollback_segment,
    status_layout, target_segment, Focused, NO_FILE_HINT, OUTPUT_IDLE_HINT, PREFIX_HINT,
};

#[test]
fn the_screen_is_tab_bar_content_and_status_bar() {
    let layout = screen_layout(Rect::new(0, 0, 80, 24)).unwrap();
    assert_eq!(layout.tabs, Rect::new(0, 0, 80, 1));
    assert_eq!(layout.content, Rect::new(0, 1, 80, 22));
    assert_eq!(layout.status, Rect::new(0, 23, 80, 1));
    assert!(screen_layout(Rect::new(0, 0, 80, 1)).is_none());
}

#[test]
fn the_tool_pane_splits_the_content_under_a_divider() {
    let content = Rect::new(0, 1, 80, 22);
    let split = layout_content(content, true, 8);
    assert_eq!(split.editor, Rect::new(0, 1, 80, 13));
    assert_eq!(split.divider, Rect::new(0, 14, 80, 1));
    assert_eq!(split.tool_term, Rect::new(0, 16, 80, 7));
    // The tool keeps two rows, and leaves the editor one.
    assert_eq!(layout_content(content, true, 0).tool_term.height, 1);
    assert_eq!(layout_content(content, true, 100).editor.height, 1);
    // Hidden, or no room: all editor.
    assert_eq!(layout_content(content, false, 8).editor, content);
    assert_eq!(layout_content(Rect::new(0, 1, 80, 3), true, 8).divider, Rect::default());
    // Dragging the divider gives the tool the rows below it.
    assert_eq!(split_rows(content, 14), Some(9));
    assert_eq!(split_rows(content, 0), Some(22));
    assert_eq!(split_rows(content, 90), Some(0));
    assert_eq!(split_rows(Rect::new(0, 1, 80, 0), 5), None);
}

#[test]
fn the_status_bar_says_where_the_cursor_and_the_build_are() {
    assert_eq!(position_segment(0, 0), " Ln 1, Col 1 ");
    assert_eq!(position_segment(40, 11), " Ln 41, Col 12 ");
    assert_eq!(scrollback_segment(0), None);
    assert_eq!(scrollback_segment(12).as_deref(), Some(" scrollback −12 "));
    assert_eq!(configuration_segment(Some("dev")), " dev ");
    assert_eq!(configuration_segment(None), "");
    assert_eq!(target_segment(None, Some("app"), false), "▸ app ");
    assert_eq!(target_segment(Some("a"), Some("b"), true), "▸ a… ");
    assert_eq!(target_segment(None, None, true), "▸ … ");
    assert_eq!(target_segment(None, None, false), "");
}

#[test]
fn the_left_of_the_status_bar_says_what_matters_most() {
    assert_eq!(left_segment(true, Some("saved"), Focused::Editor, None, "", None), PREFIX_HINT);
    assert_eq!(left_segment(false, Some("saved"), Focused::Editor, None, "", Some("a.txt")), "saved");
    assert_eq!(left_segment(false, None, Focused::Editor, None, "", Some("a.txt")), "a.txt");
    assert_eq!(left_segment(false, None, Focused::Editor, None, "", None), NO_FILE_HINT);
    assert_eq!(left_segment(false, None, Focused::Page, None, "keys", None), "keys");
    assert_eq!(
        left_segment(false, None, Focused::Tool { idle_output: true }, Some("Output"), "", None),
        OUTPUT_IDLE_HINT
    );
    assert_eq!(
        left_segment(false, None, Focused::Tool { idle_output: false }, Some("Shell"), "", None),
        "Shell"
    );
}

#[test]
fn the_build_segments_give_way_when_there_is_no_room() {
    let area = Rect::new(0, 23, 80, 1);
    let layout = status_layout(area, 13, 5, 6);
    assert!(layout.build_shown);
    assert_eq!(layout.right_x, Some(56));
    assert_eq!(layout.configuration, Rect::new(69, 23, 5, 1));
    assert_eq!(layout.target, Rect::new(74, 23, 6, 1));
    assert_eq!(layout.left_width, 55);
    let narrow = status_layout(Rect::new(0, 23, 40, 1), 13, 5, 6);
    assert!(!narrow.build_shown);
    assert_eq!(narrow.right_x, Some(27));
    assert_eq!(narrow.configuration.width, 0);
    let measured = lay_out_status(area, " Ln 1, Col 1 ", " dev ", "▸ app ");
    assert_eq!(measured, layout);
}
