use ninjaedit_tui::changes_input::{
    button_at, changes_mouse, directory_file_line, no_selection_message, not_a_repository_message, commit_notice, content_action, deleted_notice, first_line_of,
    list_action, open_change, page_size, staging_failed, wheel, what_is_staged, ChangesMouse,
    ChangesOutcome, ChangesScene, ContentAction, Divider, ListAction, OpenChange, RowShape,
};
use ninjaedit_tui::changes_tabs::{
    find_title, no_tab_notice, show_tab, submodule_title, sync_tabs,
};
use ninjaedit_tui::changes_view::{
    changes_panes, commit_heading, commit_height_for, counts_of, dir_counts, dir_label,
    directory_summary, empty_note, file_label, files_width_for, list_title, lists_height_for,
    sums, total_counts, unstaged_height_for, Cursor, FileCounts, List, Navigation, OfferedMessage,
    Pane,
};
use ninjaedit_tui::geometry::Rect;
use ninjaedit_tui::input::{KeyCode, Mouse, MouseButton, MouseKind};

#[test]
fn tab_goes_round_the_panes_past_a_missing_commit_box() {
    let cursor = Cursor { selected: 0, rows: 3, reveal: false };
    let mut nav = Navigation {
        pane: Pane::Unstaged,
        list: List::Unstaged,
        unstaged: cursor,
        staged: cursor,
        has_commit_box: false,
    };
    nav.tab(true);
    assert_eq!(nav.pane, Pane::Staged);
    nav.tab(true);
    assert_eq!(nav.pane, Pane::Content);
    nav.tab(true);
    assert_eq!(nav.pane, Pane::Unstaged, "no commit box to stop at");
    nav.tab(false);
    assert_eq!(nav.pane, Pane::Content);
    assert_eq!(Pane::Commit.next(), Pane::Unstaged);
    assert_eq!(Pane::Unstaged.previous(), Pane::Commit);
    assert_eq!(List::Staged.pane(), Pane::Staged);
}

#[test]
fn arrows_run_on_from_one_list_into_the_next() {
    let mut nav = Navigation {
        pane: Pane::Unstaged,
        list: List::Unstaged,
        unstaged: Cursor { selected: 2, rows: 3, reveal: false },
        staged: Cursor { selected: 0, rows: 2, reveal: false },
        has_commit_box: true,
    };
    assert!(nav.move_in_list(List::Unstaged, KeyCode::Down, 5));
    assert_eq!((nav.pane, nav.list, nav.staged.selected), (Pane::Staged, List::Staged, 0));
    assert!(nav.move_in_list(List::Staged, KeyCode::Up, 5));
    assert_eq!((nav.pane, nav.list, nav.unstaged.selected), (Pane::Unstaged, List::Unstaged, 2));
    assert!(nav.move_in_list(List::Unstaged, KeyCode::Home, 5));
    assert_eq!(nav.unstaged.selected, 0);
    nav.staged.selected = 1;
    assert!(nav.move_in_list(List::Staged, KeyCode::Down, 5));
    assert_eq!(nav.pane, Pane::Commit);
    assert!(!nav.move_in_list(List::Staged, KeyCode::Char('x'), 5));
}

#[test]
fn the_panes_keep_their_minimums() {
    assert_eq!(files_width_for(120, None), 40);
    assert_eq!(files_width_for(300, None), 60);
    assert_eq!(files_width_for(40, None), 40, "too narrow for a diff");
    assert_eq!(files_width_for(120, Some(200)), 103);
    assert_eq!(files_width_for(120, Some(3)), 24);
    assert_eq!(commit_height_for(40, None), 9);
    assert_eq!(commit_height_for(40, Some(300)), 35);
    assert_eq!(commit_height_for(7, None), 0);
    assert_eq!(lists_height_for(120, 40, None, None), 40);
    assert_eq!(lists_height_for(40, 40, None, None), 31);
    assert_eq!(unstaged_height_for(40, 20), 20);
    assert_eq!(unstaged_height_for(40, 39), 37);
    assert_eq!(unstaged_height_for(4, 2), 4);
}

#[test]
fn the_page_lays_its_panes_out_with_rules_between() {
    let panes = changes_panes(Rect::new(0, 1, 120, 40), None, None, None).unwrap();
    assert_eq!(panes.files_rule, Rect::new(40, 1, 1, 40));
    assert_eq!(panes.content, Rect::new(41, 1, 79, 31));
    assert_eq!(panes.unstaged, Rect::new(0, 1, 40, 20));
    assert_eq!(panes.lists_rule, Rect::new(0, 21, 40, 1));
    assert_eq!(panes.staged, Rect::new(0, 22, 40, 19));
    assert_eq!(panes.commit_rule, Rect::new(41, 32, 79, 1));
    assert_eq!(panes.commit, Rect::new(41, 33, 79, 8));
    // Too narrow for a diff: the commit box under the lists.
    let narrow = changes_panes(Rect::new(0, 0, 40, 40), None, None, None).unwrap();
    assert_eq!(narrow.content, Rect::default());
    assert_eq!(narrow.commit, Rect::new(0, 32, 40, 8));
    assert!(changes_panes(Rect::new(0, 0, 7, 40), None, None, None).is_none());
}

#[test]
fn what_the_lists_and_the_commit_box_say() {
    assert_eq!(list_title(List::Unstaged, 3), "Unstaged changes (3)");
    assert_eq!(list_title(List::Staged, 0), "Staged changes");
    assert_eq!(sums(1, 0), " +1 −0");
    let file = FileCounts { submodule: false, conflicted: false, binary: false, additions: 3, deletions: 2 };
    assert_eq!(counts_of(file), " +3 −2");
    assert_eq!(counts_of(FileCounts { conflicted: true, ..file }), " conflict");
    assert_eq!(directory_summary(3, 3, 2), "3 files, +3 −2");
    assert_eq!(commit_heading(1, Some("main"), false, false, false), ("Resolve 1 conflict".to_string(), true));
    assert_eq!(commit_heading(0, Some("main"), false, false, false), ("Commit to main".to_string(), false));
    assert_eq!(commit_heading(0, Some("main"), true, false, false).0, "Amend on main");
    assert_eq!(commit_heading(0, Some("main"), false, true, false).0, "Merge into main");
    assert_eq!(commit_heading(0, None, false, false, false).0, "Commit (detached HEAD)");
    assert_eq!(dir_label(true, "tests/oracles"), "▸ tests/oracles");
    assert_eq!(dir_label(false, "src"), "▾ src");
    assert_eq!(dir_counts(0, 0), "");
    assert_eq!(dir_counts(3, 2), " +3 −2");
    assert_eq!(total_counts(&[(1, 0), (2, 2)]), (3, 2));
    assert_eq!(file_label("tests/oracles/one.txt", None), "one.txt");
    assert_eq!(file_label("a.rs", Some("old/b.rs")), "a.rs (from old/b.rs)");
    assert_eq!(empty_note(true), "scanning…");
    assert_eq!(empty_note(false), "none");
}

#[test]
fn keys_in_a_list_fold_open_and_stage() {
    let dir = |collapsed| Some(RowShape::Dir { collapsed, has_parent: true });
    let file = Some(RowShape::File { has_parent: false });
    assert_eq!(list_action(KeyCode::Enter, dir(true), true), ListAction::Fold(false));
    assert_eq!(list_action(KeyCode::Enter, file, true), ListAction::EnterContent);
    assert_eq!(list_action(KeyCode::Enter, file, false), ListAction::Nothing);
    assert_eq!(list_action(KeyCode::Right, dir(false), true), ListAction::SelectNext);
    assert_eq!(list_action(KeyCode::Left, dir(false), true), ListAction::Fold(true));
    assert_eq!(list_action(KeyCode::Left, dir(true), true), ListAction::SelectParent);
    assert_eq!(list_action(KeyCode::Left, file, true), ListAction::Nothing);
    assert_eq!(list_action(KeyCode::Char(' '), None, true), ListAction::ToggleSelected);
    assert_eq!(list_action(KeyCode::Char('m'), None, true), ListAction::ToggleAmend);
    assert_eq!(page_size(10, 2), 8);
    assert_eq!(page_size(2, 2), 1);
}

#[test]
fn keys_in_the_diff_scroll_it() {
    assert_eq!(content_action(KeyCode::Up, 0, 9, 0), ContentAction::ScrollTo(0));
    assert_eq!(content_action(KeyCode::PageDown, 3, 9, 0), ContentAction::ScrollTo(12));
    assert_eq!(content_action(KeyCode::End, 3, 9, 0), ContentAction::ScrollTo(usize::MAX));
    assert_eq!(content_action(KeyCode::Right, 3, 9, 0), ContentAction::Sideways(4));
    assert_eq!(content_action(KeyCode::Left, 3, 9, 4), ContentAction::Sideways(-4));
    assert_eq!(content_action(KeyCode::Left, 3, 9, 0), ContentAction::BackToList);
    assert_eq!(wheel(1, false), 0);
    assert_eq!(wheel(1, true), 4);
}

fn scene() -> ChangesScene {
    ChangesScene {
        divider_drag: None,
        scrollbar_drag: false,
        message_drag: false,
        files_rule: Rect::new(40, 1, 1, 40),
        lists_rule: Rect::new(0, 21, 40, 1),
        commit_rule: Rect::new(41, 32, 79, 1),
        unstaged: Rect::new(0, 1, 40, 20),
        staged: Rect::new(0, 22, 40, 19),
        commit: Rect::new(41, 33, 79, 8),
        content: Rect::new(41, 1, 79, 31),
        scrollbar: Rect::new(45, 31, 75, 1),
        amend: Rect::new(100, 33, 9, 1),
        unstaged_scroll: 0,
        unstaged_rows: 3,
        staged_scroll: 0,
        staged_rows: 0,
        button: None,
    }
}

fn at(kind: MouseKind, column: u16, row: u16) -> Mouse {
    Mouse { kind, column, row }
}

#[test]
fn the_rules_drag_and_the_panes_take_clicks() {
    let left = MouseKind::Down(MouseButton::Left);
    let s = scene();
    assert_eq!(changes_mouse(&s, at(left, 40, 10)), ChangesMouse::StartDividerDrag(Divider::Files));
    let dragging = ChangesScene { divider_drag: Some(Divider::Files), ..s };
    assert_eq!(changes_mouse(&dragging, at(MouseKind::Drag(MouseButton::Left), 60, 10)), ChangesMouse::DragDivider(Divider::Files));
    assert_eq!(changes_mouse(&dragging, at(MouseKind::Up(MouseButton::Left), 60, 10)), ChangesMouse::EndDividerDrag);
    assert_eq!(changes_mouse(&s, at(left, 5, 1)), ChangesMouse::FocusList(List::Unstaged), "the heading");
    assert_eq!(changes_mouse(&s, at(left, 5, 3)), ChangesMouse::SelectRow(List::Unstaged, 1));
    assert_eq!(changes_mouse(&s, at(left, 5, 10)), ChangesMouse::FocusList(List::Unstaged), "past the rows");
    assert_eq!(changes_mouse(&s, at(left, 101, 33)), ChangesMouse::ToggleAmend);
    assert_eq!(changes_mouse(&s, at(left, 60, 35)), ChangesMouse::Message { focus: true });
    assert_eq!(changes_mouse(&s, at(MouseKind::ScrollDown, 60, 35)), ChangesMouse::Message { focus: false });
    assert_eq!(changes_mouse(&s, at(MouseKind::ScrollDown, 60, 5)), ChangesMouse::Scroll { pane: Pane::Content, down: true });
    assert_eq!(changes_mouse(&s, at(MouseKind::ScrollLeft, 60, 5)), ChangesMouse::Sideways(-4));
    assert_eq!(changes_mouse(&s, at(left, 60, 31)), ChangesMouse::GrabScrollbar);
    let with_button = ChangesScene { button: Some(2), ..s };
    assert_eq!(changes_mouse(&with_button, at(left, 60, 5)), ChangesMouse::PressButton(2));
    assert_eq!(changes_mouse(&s, at(left, 60, 5)), ChangesMouse::Focus(Pane::Content));
    let dragging_bar = ChangesScene { scrollbar_drag: true, ..s };
    assert_eq!(changes_mouse(&dragging_bar, at(MouseKind::Drag(MouseButton::Left), 0, 0)), ChangesMouse::DragScrollbar);
    assert_eq!(changes_mouse(&s, at(left, 200, 200)), ChangesMouse::Nothing);
    let buttons = [Rect::new(1, 5, 6, 1), Rect::new(8, 5, 6, 1)];
    assert_eq!(button_at(&buttons, 9, 5), Some(1));
    assert_eq!(button_at(&buttons, 7, 5), None);
}

#[test]
fn what_the_page_tells_the_application() {
    assert_eq!(
        open_change("sub".to_string(), true, false, false),
        OpenChange::ShowSubmodule("sub".to_string())
    );
    assert_eq!(open_change("b.txt".to_string(), false, true, false), OpenChange::Deleted("b.txt".to_string()));
    assert_eq!(
        open_change("f.txt".to_string(), false, false, true),
        OpenChange::File { path: "f.txt".to_string(), conflicted: true }
    );
    assert_eq!(deleted_notice("b.txt"), ChangesOutcome::Notice { text: "b.txt is deleted".to_string(), error: false });
    assert_eq!(
        commit_notice(false, "abc1234", "  Change things\r\n\nA body, with the why.\n"),
        ChangesOutcome::Notice { text: "Committed abc1234 Change things".to_string(), error: false }
    );
    assert_eq!(
        commit_notice(true, "abc1234", "Add two and bee"),
        ChangesOutcome::Notice { text: "Amended abc1234 Add two and bee".to_string(), error: false }
    );
    assert_eq!(first_line_of("one\r\ntwo"), "one");
    assert_eq!(first_line_of("one"), "one");
    assert_eq!(first_line_of(""), "");
    assert_eq!(what_is_staged("tests/oracles", true), "tests/oracles/");
    assert_eq!(
        staging_failed(List::Staged, "everything", "locked"),
        ChangesOutcome::Notice { text: "Could not unstage everything: locked".to_string(), error: true }
    );
}

#[test]
fn an_offered_message_is_taken_back_while_untouched() {
    let mut offered = OfferedMessage { auto: None };
    let box_text = String::new();
    let put = offered.offer(&box_text, "Add two".to_string());
    assert_eq!(put.as_deref(), Some("Add two"));
    assert!(offered.withdraw(&"Add two".to_string()));
    let put = offered.offer(&"Mine".to_string(), "Add two".to_string());
    assert_eq!(put, None);
    assert!(!offered.withdraw(&"Mine".to_string()));
}

#[test]
fn the_tabs_follow_the_changed_submodules() {
    let titles = vec!["Git Changes".to_string(), "libs/a".to_string(), "libs/b".to_string()];
    let wanted = vec!["libs/b".to_string(), "libs/c".to_string()];
    let synced = sync_tabs(&titles, 2, &wanted);
    assert_eq!(synced.titles, vec!["Git Changes".to_string(), "libs/b".to_string(), "libs/c".to_string()]);
    assert_eq!(synced.kept, vec![Some(2), None]);
    assert_eq!(synced.active, 1, "the shown tab stays shown");
    let gone = sync_tabs(&titles, 1, &wanted);
    assert_eq!(gone.active, 0, "a shown tab that is gone gives way to the main one");
    assert_eq!(find_title(&titles, &"libs/b".to_string()), Some(2));
    assert_eq!(submodule_title("libs/a", true, "inner"), "libs/a/inner");
    assert_eq!(submodule_title("Git Changes", false, "sub"), "sub");
    assert_eq!(
        no_tab_notice("sub"),
        ChangesOutcome::Notice { text: "sub has no uncommitted changes of its own".to_string(), error: false }
    );
    assert_eq!(show_tab(0, 3, 2), (2, true));
    assert_eq!(show_tab(2, 3, 2), (2, false));
    assert_eq!(show_tab(0, 3, 5), (0, false));
}

#[test]
fn what_the_diff_pane_says_without_a_diff() {
    assert_eq!(no_selection_message(true, true, List::Unstaged), "scanning…");
    assert_eq!(no_selection_message(false, true, List::Staged), "Nothing to commit: the working tree is clean");
    assert_eq!(no_selection_message(true, false, List::Unstaged), "No unstaged changes");
    assert_eq!(no_selection_message(false, false, List::Staged), "No staged changes");
    assert_eq!(not_a_repository_message(None), "Not a git repository");
    assert_eq!(not_a_repository_message(Some("")), "Not a git repository");
    assert_eq!(not_a_repository_message(Some("Submodule not initialized")), "Submodule not initialized");
    assert_eq!(not_a_repository_message(Some("no .git")), "Not a git repository: no .git");
    assert_eq!(
        directory_file_line("?", "tests/oracles/three.txt", "tests/oracles", " +1 −0"),
        "? three.txt  +1 −0"
    );
    assert_eq!(directory_file_line("M", "other/x.rs", "tests", " bin"), "M other/x.rs  bin");
}
