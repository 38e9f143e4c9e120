use ninjaedit_tui::views::{View, EDITOR_MODE_LABEL};

#[test]
fn the_views_list_the_editor_then_the_tools_then_the_pages() {
    assert_eq!(
        View::all(2),
        vec![
            View::Editor,
            View::Tool(0),
            View::Tool(1),
            View::GitLog,
            View::Changes,
            View::Build,
            View::Settings,
        ]
    );
    assert_eq!(View::all(0).len(), 5);
}

#[test]
fn each_view_has_a_name_a_description_and_maybe_a_key() {
    assert_eq!(View::Editor.label("Settings", "Git Log", "Shell"), EDITOR_MODE_LABEL);
    assert_eq!(View::Build.label("Settings", "Git Log", "Shell"), "Build Configuration");
    assert_eq!(View::Changes.label("Settings", "Git Log", "Shell"), "Git Changes");
    assert_eq!(View::GitLog.label("Settings", "Git Log", "Shell"), "Git Log");
    assert_eq!(View::Tool(0).label("Settings", "Git Log", "Shell"), "Shell");
    assert_eq!(View::Editor.description("a shell"), "Edit the open files");
    assert_eq!(View::Tool(1).description("a shell"), "a shell");
    assert_eq!(View::Tool(0).shortcut(0), Some("Ctrl+`"));
    assert_eq!(View::Tool(1).shortcut(0), None);
    assert_eq!(View::GitLog.shortcut(0), Some("Ctrl+L"));
    assert_eq!(View::Changes.shortcut(0), Some("Ctrl+U"));
    assert_eq!(View::Settings.shortcut(0), None);
}
