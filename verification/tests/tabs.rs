use ninjaedit_tui::tabs::{
    order_by_recency, parent_of, request_close, request_quit, tab_title, Confirm, TabHistory,
};

#[test]
fn closing_the_active_tab_goes_back_to_the_one_viewed_before() {
    let mut tabs = TabHistory::new();
    assert_eq!(tabs.active(), None);
    assert_eq!(tabs.open(), 0);
    assert_eq!(tabs.open(), 1);
    assert_eq!(tabs.open(), 2);
    tabs.activate(0);
    tabs.activate(2);
    assert_eq!(tabs.active(), Some(2));
    assert_eq!(tabs.recency_order(), vec![2, 0, 1]);
    tabs.close(2);
    assert_eq!(tabs.active(), Some(0), "tab 0 was viewed before tab 2");
    assert_eq!(tabs.len(), 2);
    // Closing one before the active tab keeps the same tab active.
    tabs.activate(1);
    tabs.close(0);
    assert_eq!(tabs.active(), Some(0));
    tabs.close(5);
    assert_eq!(tabs.len(), 1);
    tabs.close(0);
    assert_eq!(tabs.active(), None);
    assert_eq!(tabs.most_recent(), None);
}

#[test]
fn the_tab_search_lists_the_most_recent_first() {
    assert_eq!(order_by_recency(&vec![3, 9, 1, 9]), vec![1, 3, 0, 2]);
    assert_eq!(order_by_recency(&vec![]), Vec::<usize>::new());
}

#[test]
fn tabs_are_titled_by_their_files() {
    assert_eq!(tab_title(Some("/home/ann/project/src/main.rs")), "main.rs");
    assert_eq!(tab_title(None), "untitled");
    assert_eq!(tab_title(Some("/")), "untitled");
    assert_eq!(parent_of("src/main.rs"), "src");
    assert_eq!(parent_of("main.rs"), "");
}

#[test]
fn unsaved_changes_take_two_requests() {
    let mut confirm = None;
    assert_eq!(request_close(&mut confirm, 1, false, "a.txt"), None);
    let ask = request_close(&mut confirm, 1, true, "a.txt");
    assert_eq!(
        ask.as_deref(),
        Some("a.txt has unsaved changes: press Ctrl+W again to close without saving, Ctrl+S to save")
    );
    assert_eq!(confirm, Some(Confirm::CloseTab(1)));
    assert_eq!(request_close(&mut confirm, 1, true, "a.txt"), None);
    let ask = request_quit(&mut confirm, 2);
    assert_eq!(
        ask.as_deref(),
        Some("2 file(s) have unsaved changes: press Ctrl+Q again to quit without saving")
    );
    assert_eq!(request_quit(&mut confirm, 2), None);
    let mut none = None;
    assert_eq!(request_quit(&mut none, 0), None);
}

#[test]
fn closing_the_last_tab_leaves_none_active() {
    let mut tabs = TabHistory::new();
    assert_eq!(tabs.open(), 0);
    tabs.close(0);
    assert_eq!(tabs.len(), 0);
    assert_eq!(tabs.active(), None);
    assert_eq!(tabs.open(), 0);
    assert_eq!(tabs.active(), Some(0));
}
