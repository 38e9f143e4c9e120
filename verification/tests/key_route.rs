use ninjaedit_tui::context_menu::shortcut_x;
use ninjaedit_tui::geometry::Rect;
use ninjaedit_tui::input::{Key, KeyCode};
use ninjaedit_tui::key_route::{
    keeps_confirm, route_key, route_paste, shared_key, switch_focus, tool_key, Focus, KeyRoute,
    KeyScene, PasteRoute, Shared, ToolKey,
};

fn ctrl(c: char) -> Key {
    Key::ctrl(KeyCode::Char(c))
}

fn editor() -> KeyScene {
    KeyScene {
        tool_focused: false,
        palette: false,
        search_box: false,
        goto_line: false,
        project_search: false,
        page: false,
    }
}

#[test]
fn the_prefix_holds_the_next_key() {
    // A program running: its keys go to it, the prefix held first.
    assert_eq!(tool_key(false, ctrl('p'), true, false), ToolKey::Send);
    assert_eq!(tool_key(false, ctrl(']'), true, false), ToolKey::HoldPrefix);
    assert_eq!(tool_key(false, ctrl('5'), true, false), ToolKey::HoldPrefix);
    assert_eq!(tool_key(true, ctrl('p'), true, false), ToolKey::PrefixedShared(Shared::CommandPalette));
    assert_eq!(tool_key(true, ctrl(']'), true, false), ToolKey::SendPrefix);
    assert_eq!(tool_key(true, Key::plain(KeyCode::Char('x')), true, false), ToolKey::SendPrefixAndKey);
    assert_eq!(tool_key(false, ctrl('`'), true, false), ToolKey::ToggleShell);
    // No program running: the editor's keys need no prefix.
    assert_eq!(tool_key(false, ctrl('d'), false, false), ToolKey::Dismiss);
    assert_eq!(tool_key(false, ctrl('b'), false, false), ToolKey::Shared(Shared::Build));
    assert_eq!(tool_key(false, Key::plain(KeyCode::Enter), false, false), ToolKey::Send);
    // A pending quit is kept through the prefix for the second Ctrl+Q.
    assert!(keeps_confirm(ToolKey::HoldPrefix));
    assert!(keeps_confirm(ToolKey::PrefixedShared(Shared::Quit)));
    assert!(!keeps_confirm(ToolKey::PrefixedShared(Shared::Build)));
    assert!(!keeps_confirm(ToolKey::SendPrefix));
}

#[test]
fn ctrl_f_with_the_search_box_open_widens_the_search() {
    assert_eq!(shared_key(ctrl('f'), false), Some(Shared::SearchBox));
    assert_eq!(shared_key(ctrl('f'), true), Some(Shared::UpgradeSearch));
    assert_eq!(shared_key(ctrl('F'), false), Some(Shared::ProjectSearch));
    let shifted = Key { code: KeyCode::Char('f'), ctrl: true, shift: true };
    assert_eq!(shared_key(shifted, true), Some(Shared::ProjectSearch));
    assert_eq!(shared_key(ctrl('z'), false), None);
    let search = KeyScene { search_box: true, ..editor() };
    assert_eq!(route_key(search, ctrl('f')), KeyRoute::Shared(Shared::UpgradeSearch));
    assert_eq!(route_key(search, Key::plain(KeyCode::Char('a'))), KeyRoute::SearchBox);
}

#[test]
fn keys_go_to_what_floats_over_the_editor_first() {
    assert_eq!(route_key(editor(), ctrl('w')), KeyRoute::CloseTab);
    assert_eq!(route_key(editor(), ctrl('s')), KeyRoute::Save);
    assert_eq!(route_key(editor(), ctrl('g')), KeyRoute::FindNext);
    assert_eq!(route_key(editor(), Key::plain(KeyCode::Char('a'))), KeyRoute::Editor);
    assert_eq!(route_key(editor(), ctrl('q')), KeyRoute::Shared(Shared::Quit));
    let palette = KeyScene { palette: true, tool_focused: true, ..editor() };
    assert_eq!(route_key(palette, Key::plain(KeyCode::Down)), KeyRoute::Palette);
    let tool = KeyScene { tool_focused: true, ..editor() };
    assert_eq!(route_key(tool, ctrl('q')), KeyRoute::Tool);
    let page = KeyScene { page: true, ..editor() };
    assert_eq!(route_key(page, ctrl('s')), KeyRoute::Page);
    assert_eq!(route_key(page, ctrl('e')), KeyRoute::Shared(Shared::ModesPalette));
}

#[test]
fn pasted_text_goes_where_the_keys_would() {
    assert_eq!(route_paste(editor(), false, true, true), PasteRoute::Editor);
    assert_eq!(route_paste(editor(), false, true, false), PasteRoute::Nowhere);
    let tool = KeyScene { tool_focused: true, ..editor() };
    assert_eq!(route_paste(tool, true, true, true), PasteRoute::Tool { prefix_first: true });
    let log = KeyScene { page: true, ..editor() };
    assert_eq!(route_paste(log, false, false, true), PasteRoute::Nowhere);
    let palette = KeyScene { palette: true, ..tool };
    assert_eq!(route_paste(palette, true, true, true), PasteRoute::Palette);
}

#[test]
fn switching_views_flips_only_while_the_tool_shows() {
    assert_eq!(switch_focus(Focus::Editor, true), (Focus::Tool, true));
    assert_eq!(switch_focus(Focus::Tool, true), (Focus::Editor, false));
    assert_eq!(switch_focus(Focus::Tool, false), (Focus::Editor, false));
}

#[test]
fn a_menu_shortcut_sits_at_the_right_end_when_it_fits() {
    let rows = Rect::new(11, 4, 20, 3);
    assert_eq!(shortcut_x(rows, 4, 6), Some(11 + 20 - 1 - 6));
    assert_eq!(shortcut_x(rows, 11, 6), None);
    assert_eq!(shortcut_x(rows, 10, 6), Some(24));
}
