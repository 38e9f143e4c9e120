use ninjaedit_tui::branch_prompt::{BranchPrompt, BranchPromptOutcome};
use ninjaedit_tui::geometry::Rect;
use ninjaedit_tui::input::{Key, KeyCode};

fn prompt() -> BranchPrompt<u32> {
    BranchPrompt::new(7, "origin/feature".to_string(), "feature".to_string())
}

#[test]
fn enter_gives_the_name_trimmed_and_escape_closes() {
    let mut p = prompt();
    assert_eq!(p.id, 7);
    p.edit("  my-feature ".to_string());
    assert_eq!(p.name(), "my-feature");
    assert_eq!(
        p.handle_key(Key::plain(KeyCode::Enter)),
        BranchPromptOutcome::Accept("my-feature".to_string())
    );
    assert_eq!(p.handle_key(Key::plain(KeyCode::Esc)), BranchPromptOutcome::Close);
    assert_eq!(p.handle_key(Key::plain(KeyCode::Char('x'))), BranchPromptOutcome::Continue);
}

#[test]
fn a_refusal_shows_until_the_name_changes() {
    let mut p = prompt();
    assert_eq!(p.hint(), "branch feature exists · new branch will track origin/feature");
    p.edit("feature".to_string());
    p.refuse("a branch named feature already exists".to_string());
    assert_eq!(p.hint(), "a branch named feature already exists");
    p.edit("feature".to_string());
    assert_eq!(p.hint(), "a branch named feature already exists");
    p.edit("feature2".to_string());
    assert_eq!(p.hint(), "branch feature exists · new branch will track origin/feature");
}

#[test]
fn the_box_floats_over_the_top_of_the_page() {
    let mut p = prompt();
    let row = p.layout(Rect::new(0, 0, 100, 30), 60);
    assert_eq!(row, Some(Rect::new(21, 2, 58, 1)));
    assert!(p.contains(20, 1));
    assert!(!p.contains(20, 4));
    assert_eq!(p.layout(Rect::new(0, 0, 100, 3), 60), None);
    assert!(!p.contains(20, 1));
    assert_eq!(p.layout(Rect::new(0, 0, 11, 30), 60), None);
}
