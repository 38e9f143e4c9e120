use ninjaedit_tui::command::{Command, Context, FileContext};
use ninjaedit_tui::context_menu::{ContextMenu, MenuEntry, MenuOutcome};
use ninjaedit_tui::geometry::Rect;
use ninjaedit_tui::input::{Key, KeyCode, Mouse, MouseButton, MouseKind};

const MENU: &[MenuEntry] = &[
    MenuEntry::Command(Command::Undo),
    MenuEntry::Command(Command::Redo),
    MenuEntry::Separator,
    MenuEntry::Command(Command::Cut),
    MenuEntry::Command(Command::Copy),
    MenuEntry::Command(Command::Paste),
    MenuEntry::Separator,
    MenuEntry::Command(Command::SelectAll),
];

fn file(file: FileContext) -> Context {
    Context {
        file: Some(file),
        ..Context::default()
    }
}

fn key(code: KeyCode) -> Key {
    Key::plain(code)
}

fn mouse(kind: MouseKind, column: u16, row: u16) -> Mouse {
    Mouse { kind, column, row }
}

#[test]
fn lists_only_the_commands_that_apply_and_tidies_the_separators() {
    // Everything applies: the list as given.
    let all = file(FileContext {
        can_undo: true,
        can_redo: true,
        has_selection: true,
        ..FileContext::default()
    });
    let menu = ContextMenu::new(MENU, &all, 0, 0).unwrap();
    assert_eq!(
        menu.commands(),
        [
            Some(Command::Undo),
            Some(Command::Redo),
            None,
            Some(Command::Cut),
            Some(Command::Copy),
            Some(Command::Paste),
            None,
            Some(Command::SelectAll),
        ]
    );

    // A fresh file with nothing selected: the first group goes,
    // taking the separator that would come first with it, and the
    // middle group shrinks to Paste.
    let fresh = file(FileContext::default());
    let menu = ContextMenu::new(MENU, &fresh, 0, 0).unwrap();
    assert_eq!(
        menu.commands(),
        [Some(Command::Paste), None, Some(Command::SelectAll)]
    );

    // A whole group in the middle filtered out leaves one separator,
    // not two, and one at the end is dropped.
    let entries = [
        MenuEntry::Command(Command::Paste),
        MenuEntry::Separator,
        MenuEntry::Command(Command::Cut),
        MenuEntry::Command(Command::Copy),
        MenuEntry::Separator,
        MenuEntry::Command(Command::SelectAll),
        MenuEntry::Separator,
        MenuEntry::Command(Command::Undo),
        MenuEntry::Separator,
    ];
    let menu = ContextMenu::new(&entries, &fresh, 0, 0).unwrap();
    assert_eq!(
        menu.commands(),
        [Some(Command::Paste), None, Some(Command::SelectAll)]
    );
    // Separators given in a row are one.
    let entries = [
        MenuEntry::Separator,
        MenuEntry::Separator,
        MenuEntry::Command(Command::Paste),
        MenuEntry::Separator,
        MenuEntry::Separator,
        MenuEntry::Command(Command::SelectAll),
    ];
    let menu = ContextMenu::new(&entries, &fresh, 0, 0).unwrap();
    assert_eq!(
        menu.commands(),
        [Some(Command::Paste), None, Some(Command::SelectAll)]
    );
}

#[test]
fn no_applicable_command_means_no_menu() {
    // No file open: none of the editor's commands apply.
    assert!(ContextMenu::new(MENU, &Context::default(), 0, 0).is_none());
    let only_separators = [MenuEntry::Separator, MenuEntry::Separator];
    assert!(ContextMenu::new(&only_separators, &Context::default(), 0, 0).is_none());
    assert!(ContextMenu::new(&[], &Context::default(), 0, 0).is_none());
}

#[test]
fn keys_step_over_separators_and_wrap() {
    let context = file(FileContext::default());
    let mut menu = ContextMenu::new(MENU, &context, 0, 0).unwrap();
    // Paste, separator, Select all. Nothing is highlighted to begin
    // with, so Enter does nothing.
    assert_eq!(menu.selected(), None);
    assert_eq!(menu.handle_key(key(KeyCode::Enter)), MenuOutcome::Continue);
    assert_eq!(menu.handle_key(key(KeyCode::Down)), MenuOutcome::Continue);
    assert_eq!(menu.selected(), Some(Command::Paste));
    menu.handle_key(key(KeyCode::Down));
    assert_eq!(menu.selected(), Some(Command::SelectAll));
    menu.handle_key(key(KeyCode::Down));
    assert_eq!(menu.selected(), Some(Command::Paste));
    menu.handle_key(key(KeyCode::Up));
    assert_eq!(menu.selected(), Some(Command::SelectAll));
    menu.handle_key(key(KeyCode::Home));
    assert_eq!(menu.selected(), Some(Command::Paste));
    menu.handle_key(key(KeyCode::End));
    assert_eq!(menu.selected(), Some(Command::SelectAll));
    assert_eq!(
        menu.handle_key(key(KeyCode::Enter)),
        MenuOutcome::Activate(Command::SelectAll)
    );
    assert_eq!(menu.handle_key(key(KeyCode::Esc)), MenuOutcome::Close);
    assert_eq!(
        menu.handle_key(key(KeyCode::Char('x'))),
        MenuOutcome::Unhandled
    );

    // Up from nothing highlights the last command.
    let mut menu = ContextMenu::new(MENU, &context, 0, 0).unwrap();
    menu.handle_key(key(KeyCode::Up));
    assert_eq!(menu.selected(), Some(Command::SelectAll));
}

#[test]
fn moves_to_fit_on_the_screen() {
    let context = file(FileContext::default());
    let screen = Rect::new(0, 0, 30, 10);
    // Paste, separator, Select all: 5 rows, 22 columns.
    let mut menu = ContextMenu::new(MENU, &context, 20, 2).unwrap();
    menu.layout(screen);
    assert_eq!(menu.area(), Rect::new(8, 2, 22, 5));

    // No room below: opened upward, its bottom row at the pointer.
    let mut menu = ContextMenu::new(MENU, &context, 2, 8).unwrap();
    menu.layout(screen);
    assert_eq!(menu.area(), Rect::new(2, 4, 22, 5));

    // No room either way: moved up as far as it takes.
    let short = Rect::new(0, 0, 30, 6);
    let mut menu = ContextMenu::new(MENU, &context, 2, 3).unwrap();
    menu.layout(short);
    assert_eq!(menu.area(), Rect::new(2, 1, 22, 5));

    // A screen too small for a menu at all draws nothing.
    let tiny = Rect::new(0, 0, 30, 2);
    let mut menu = ContextMenu::new(MENU, &context, 2, 0).unwrap();
    assert!(!menu.layout(tiny));
    assert_eq!(menu.area(), Rect::default());
    assert!(!menu.contains(2, 0));
}

#[test]
fn the_pointer_highlights_the_row_it_is_over_and_a_press_runs_it() {
    let context = file(FileContext {
        can_undo: true,
        ..FileContext::default()
    });
    let mut menu = ContextMenu::new(MENU, &context, 3, 1).unwrap();
    let screen = Rect::new(0, 0, 30, 10);
    assert!(menu.layout(screen));
    // Undo, separator, Paste, separator, Select all, in a border.
    assert_eq!(menu.area(), Rect::new(3, 1, 22, 7));
    assert_eq!(menu.rows(), Rect::new(4, 2, 20, 5));
    assert_eq!(menu.rows_width(), 20);
    assert!(menu.contains(3, 1));
    assert!(menu.contains(24, 7));
    assert!(!menu.contains(25, 7));
    assert!(!menu.contains(3, 8));

    // The pointer highlights the row it is over, but not a separator
    // or the border; a press on a row runs it.
    assert_eq!(
        menu.handle_mouse(mouse(MouseKind::Moved, 10, 4)),
        MenuOutcome::Continue
    );
    assert_eq!(menu.selected(), Some(Command::Paste));
    menu.handle_mouse(mouse(MouseKind::Moved, 10, 5));
    assert_eq!(menu.selected(), None);
    menu.handle_mouse(mouse(MouseKind::Moved, 10, 1));
    assert_eq!(menu.selected(), None);
    assert_eq!(
        menu.handle_mouse(mouse(MouseKind::Down(MouseButton::Left), 10, 5)),
        MenuOutcome::Continue
    );
    assert_eq!(
        menu.handle_mouse(mouse(MouseKind::Down(MouseButton::Left), 10, 6)),
        MenuOutcome::Activate(Command::SelectAll)
    );
    // A press outside is for the application to deal with; the
    // release of the button that opened the menu is nothing.
    assert_eq!(
        menu.handle_mouse(mouse(MouseKind::Down(MouseButton::Left), 0, 0)),
        MenuOutcome::Unhandled
    );
    assert_eq!(
        menu.handle_mouse(mouse(MouseKind::Up(MouseButton::Right), 10, 6)),
        MenuOutcome::Continue
    );
    assert_eq!(
        menu.handle_mouse(mouse(MouseKind::Down(MouseButton::Middle), 10, 6)),
        MenuOutcome::Continue
    );
}
