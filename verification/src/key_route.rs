//! Where the application sends a key press or a paste.
//!
//! With a tool focused, its program gets every key but the prefix
//! (Ctrl+], which holds the next key for the editor) and Ctrl+`, so a
//! shell has the full keyboard; with no program running (the output tool
//! between jobs) the editor's keys need no prefix, and Ctrl+D dismisses
//! the tool. Otherwise the Ctrl bindings shared with the tool pane come
//! first, then whatever floats over the editor, then the page in its
//! place, then the editor's own keys.

use crate::input::{Key, KeyCode};
use vstd::prelude::*;

verus! {

/// The Ctrl bindings the editor and, after the prefix, the tool pane
/// share: everything that opens something or moves between views.
#[derive(Clone, Copy, Debug, PartialEq, Eq, Structural)]
pub enum Shared {
    Quit,
    ToggleShell,
    CommandPalette,
    ModesPalette,
    FocusPrevious,
    FocusNext,
    TabsPalette,
    FilesPalette,
    ProjectSearch,
    /// Ctrl+F with the search box open: the search goes project-wide.
    UpgradeSearch,
    SearchBox,
    GotoLine,
    GitLog,
    Changes,
    Build,
    Run,
}

/// The shared binding of Ctrl and `key`, if it has one; Ctrl+F is the
/// project search with Shift (which a terminal with the kitty protocol
/// may send as a capital), and widens the search box's search when that
/// is open.
pub open spec fn shared_of(key: Key, search_box_open: bool) -> Option<Shared> {
    match key.code {
        KeyCode::Char(c) => if c == 'q' {
            Some(Shared::Quit)
        } else if c == '`' {
            Some(Shared::ToggleShell)
        } else if c == 'p' {
            Some(Shared::CommandPalette)
        } else if c == 'e' {
            Some(Shared::ModesPalette)
        } else if c == ',' {
            Some(Shared::FocusPrevious)
        } else if c == '.' {
            Some(Shared::FocusNext)
        } else if c == 't' {
            Some(Shared::TabsPalette)
        } else if c == 'o' {
            Some(Shared::FilesPalette)
        } else if c == 'F' || (c == 'f' && key.shift) {
            Some(Shared::ProjectSearch)
        } else if c == 'f' {
            Some(if search_box_open { Shared::UpgradeSearch } else { Shared::SearchBox })
        } else if c == 'j' {
            Some(Shared::GotoLine)
        } else if c == 'l' {
            Some(Shared::GitLog)
        } else if c == 'u' {
            Some(Shared::Changes)
        } else if c == 'b' {
            Some(Shared::Build)
        } else if c == 'r' {
            Some(Shared::Run)
        } else {
            None
        },
        _ => None,
    }
}

/// The shared binding of Ctrl and `key`, if it has one.
pub fn shared_key(key: Key, search_box_open: bool) -> (shared: Option<Shared>)
    ensures
        shared == shared_of(key, search_box_open),
{
    match key.code {
        KeyCode::Char(c) => if c == 'q' {
            Some(Shared::Quit)
        } else if c == '`' {
            Some(Shared::ToggleShell)
        } else if c == 'p' {
            Some(Shared::CommandPalette)
        } else if c == 'e' {
            Some(Shared::ModesPalette)
        } else if c == ',' {
            Some(Shared::FocusPrevious)
        } else if c == '.' {
            Some(Shared::FocusNext)
        } else if c == 't' {
            Some(Shared::TabsPalette)
        } else if c == 'o' {
            Some(Shared::FilesPalette)
        } else if c == 'F' || (c == 'f' && key.shift) {
            Some(Shared::ProjectSearch)
        } else if c == 'f' {
            Some(if search_box_open { Shared::UpgradeSearch } else { Shared::SearchBox })
        } else if c == 'j' {
            Some(Shared::GotoLine)
        } else if c == 'l' {
            Some(Shared::GitLog)
        } else if c == 'u' {
            Some(Shared::Changes)
        } else if c == 'b' {
            Some(Shared::Build)
        } else if c == 'r' {
            Some(Shared::Run)
        } else {
            None
        },
        _ => None,
    }
}

/// What a key does with a tool focused.
#[derive(Clone, Copy, Debug, PartialEq, Eq, Structural)]
pub enum ToolKey {
    /// The prefix twice: the program gets the prefix itself.
    SendPrefix,
    /// After the prefix, one of the shared bindings.
    PrefixedShared(Shared),
    /// After the prefix, a key that isn't the editor's: the program gets
    /// both.
    SendPrefixAndKey,
    /// The prefix: hold it for the next key.
    HoldPrefix,
    /// Ctrl+`: show or hide the shell.
    ToggleShell,
    /// Ctrl+D with no program running: dismiss the tool.
    Dismiss,
    /// With no program running, one of the shared bindings.
    Shared(Shared),
    /// The program gets the key.
    Send,
}

/// What a key does with a tool focused, the prefix held when
/// `prefix_held`, a program running when `running`.
pub open spec fn tool_key_of(prefix_held: bool, key: Key, running: bool, search_box_open: bool) -> ToolKey {
    let shared = shared_of(key, search_box_open);
    if prefix_held {
        if key.is_prefix_spec() {
            ToolKey::SendPrefix
        } else if key.ctrl && shared is Some {
            ToolKey::PrefixedShared(shared->0)
        } else {
            ToolKey::SendPrefixAndKey
        }
    } else if key.is_prefix_spec() {
        ToolKey::HoldPrefix
    } else if key.ctrl && key.code == KeyCode::Char('`') {
        ToolKey::ToggleShell
    } else if !running && key.ctrl && key.code == KeyCode::Char('d') {
        ToolKey::Dismiss
    } else if !running && key.ctrl && shared is Some {
        ToolKey::Shared(shared->0)
    } else {
        ToolKey::Send
    }
}

/// What a key does with a tool focused.
pub fn tool_key(prefix_held: bool, key: Key, running: bool, search_box_open: bool) -> (action: ToolKey)
    ensures
        action == tool_key_of(prefix_held, key, running, search_box_open),
{
    let shared = shared_key(key, search_box_open);
    let prefix = key.is_prefix();
    if prefix_held {
        if prefix {
            return ToolKey::SendPrefix;
        }
        if key.ctrl {
            if let Some(s) = shared {
                return ToolKey::PrefixedShared(s);
            }
        }
        return ToolKey::SendPrefixAndKey;
    }
    if prefix {
        return ToolKey::HoldPrefix;
    }
    if key.ctrl && key.code == KeyCode::Char('`') {
        return ToolKey::ToggleShell;
    }
    if !running && key.ctrl {
        if key.code == KeyCode::Char('d') {
            return ToolKey::Dismiss;
        }
        if let Some(s) = shared {
            return ToolKey::Shared(s);
        }
    }
    ToolKey::Send
}

/// Whether a confirmation pending before the key (to close a tab or
/// quit with unsaved changes) stays pending through it: the prefix keeps
/// it for the key after, a key the program gets keeps it, and so does a
/// quit, which the confirmation is for.
pub open spec fn tool_key_keeps_confirm(action: ToolKey) -> bool {
    match action {
        ToolKey::HoldPrefix | ToolKey::Send => true,
        ToolKey::PrefixedShared(s) | ToolKey::Shared(s) => s == Shared::Quit,
        _ => false,
    }
}

/// Whether a confirmation pending before the key stays pending through
/// it, with a tool focused.
pub fn keeps_confirm(action: ToolKey) -> (keeps: bool)
    ensures
        keeps == tool_key_keeps_confirm(action),
{
    match action {
        ToolKey::HoldPrefix | ToolKey::Send => true,
        ToolKey::PrefixedShared(s) | ToolKey::Shared(s) => s == Shared::Quit,
        _ => false,
    }
}

/// What is open when a key comes, as far as where it goes.
#[derive(Clone, Copy, Debug, PartialEq, Eq, Structural)]
pub struct KeyScene {
    /// The tool pane has the keyboard.
    pub tool_focused: bool,
    pub palette: bool,
    pub search_box: bool,
    pub goto_line: bool,
    pub project_search: bool,
    /// A page stands in the editor's place.
    pub page: bool,
}

impl KeyScene {
    /// Whether something floats over the editor, and so has the keyboard
    /// whichever view is focused.
    pub open spec fn overlay(self) -> bool {
        self.palette || self.search_box || self.goto_line || self.project_search
    }
}

/// Where a key goes.
#[derive(Clone, Copy, Debug, PartialEq, Eq, Structural)]
pub enum KeyRoute {
    /// The tool pane's handling (see [`tool_key`]).
    Tool,
    Shared(Shared),
    Palette,
    SearchBox,
    GotoLine,
    ProjectSearch,
    Page,
    /// Ctrl+W: close the active tab, asking first when it has unsaved
    /// changes.
    CloseTab,
    /// Ctrl+S: save the active tab.
    Save,
    /// Ctrl+G: the next match.
    FindNext,
    /// The active tab's editor.
    Editor,
}

/// Where a key goes: to the tool when it has the keyboard and nothing
/// floats over it; else a shared binding; else what floats over the
/// editor; else the page in its place; else the editor, which closes,
/// saves, and finds with Ctrl+W, Ctrl+S, and Ctrl+G.
pub open spec fn key_route_of(scene: KeyScene, key: Key) -> KeyRoute {
    let shared = shared_of(key, scene.search_box);
    if scene.tool_focused && !scene.overlay() {
        KeyRoute::Tool
    } else if key.ctrl && shared is Some {
        KeyRoute::Shared(shared->0)
    } else if scene.palette {
        KeyRoute::Palette
    } else if scene.search_box {
        KeyRoute::SearchBox
    } else if scene.goto_line {
        KeyRoute::GotoLine
    } else if scene.project_search {
        KeyRoute::ProjectSearch
    } else if scene.page {
        KeyRoute::Page
    } else if key.ctrl && key.code == KeyCode::Char('w') {
        KeyRoute::CloseTab
    } else if key.ctrl && key.code == KeyCode::Char('s') {
        KeyRoute::Save
    } else if key.ctrl && key.code == KeyCode::Char('g') {
        KeyRoute::FindNext
    } else {
        KeyRoute::Editor
    }
}

/// Where a key goes.
pub fn route_key(scene: KeyScene, key: Key) -> (route: KeyRoute)
    ensures
        route == key_route_of(scene, key),
{
    let overlay = scene.palette || scene.search_box || scene.goto_line || scene.project_search;
    if scene.tool_focused && !overlay {
        return KeyRoute::Tool;
    }
    if key.ctrl {
        if let Some(s) = shared_key(key, scene.search_box) {
            return KeyRoute::Shared(s);
        }
    }
    if scene.palette {
        KeyRoute::Palette
    } else if scene.search_box {
        KeyRoute::SearchBox
    } else if scene.goto_line {
        KeyRoute::GotoLine
    } else if scene.project_search {
        KeyRoute::ProjectSearch
    } else if scene.page {
        KeyRoute::Page
    } else if key.ctrl && key.code == KeyCode::Char('w') {
        KeyRoute::CloseTab
    } else if key.ctrl && key.code == KeyCode::Char('s') {
        KeyRoute::Save
    } else if key.ctrl && key.code == KeyCode::Char('g') {
        KeyRoute::FindNext
    } else {
        KeyRoute::Editor
    }
}

/// Where pasted text goes.
#[derive(Clone, Copy, Debug, PartialEq, Eq, Structural)]
pub enum PasteRoute {
    Palette,
    SearchBox,
    GotoLine,
    ProjectSearch,
    /// The tool's program, after the prefix when it was waiting.
    Tool { prefix_first: bool },
    /// The page in the editor's place, when it takes text (the git log
    /// doesn't).
    Page,
    Editor,
    Nowhere,
}

/// Where pasted text goes: to what floats over the editor, else to the
/// tool when it has the keyboard, else to the page in the editor's place
/// when it takes text, else to the editor when a tab is open.
pub open spec fn paste_route_of(scene: KeyScene, prefix_held: bool, page_takes_text: bool, tab_open: bool) -> PasteRoute {
    if scene.palette {
        PasteRoute::Palette
    } else if scene.search_box {
        PasteRoute::SearchBox
    } else if scene.goto_line {
        PasteRoute::GotoLine
    } else if scene.project_search {
        PasteRoute::ProjectSearch
    } else if scene.tool_focused {
        PasteRoute::Tool { prefix_first: prefix_held }
    } else if scene.page {
        if page_takes_text { PasteRoute::Page } else { PasteRoute::Nowhere }
    } else if tab_open {
        PasteRoute::Editor
    } else {
        PasteRoute::Nowhere
    }
}

/// Where pasted text goes.
pub fn route_paste(scene: KeyScene, prefix_held: bool, page_takes_text: bool, tab_open: bool) -> (route: PasteRoute)
    ensures
        route == paste_route_of(scene, prefix_held, page_takes_text, tab_open),
{
    if scene.palette {
        PasteRoute::Palette
    } else if scene.search_box {
        PasteRoute::SearchBox
    } else if scene.goto_line {
        PasteRoute::GotoLine
    } else if scene.project_search {
        PasteRoute::ProjectSearch
    } else if scene.tool_focused {
        PasteRoute::Tool { prefix_first: prefix_held }
    } else if scene.page {
        if page_takes_text {
            PasteRoute::Page
        } else {
            PasteRoute::Nowhere
        }
    } else if tab_open {
        PasteRoute::Editor
    } else {
        PasteRoute::Nowhere
    }
}

/// Which view has the keyboard: the upper one or the tool pane.
#[derive(Clone, Copy, Debug, PartialEq, Eq, Structural)]
pub enum Focus {
    Editor,
    Tool,
}

/// The focus after switching views: the other one while the tool pane
/// shows, else the editor. Returns the focus and whether the overlays
/// over the editor are to close, which they are when the keyboard moves
/// to the tool.
pub fn switch_focus(focus: Focus, tool_visible: bool) -> (switched: (Focus, bool))
    ensures
        !tool_visible ==> switched == (Focus::Editor, false),
        tool_visible && focus == Focus::Editor ==> switched == (Focus::Tool, true),
        tool_visible && focus == Focus::Tool ==> switched == (Focus::Editor, false),
{
    if !tool_visible {
        return (Focus::Editor, false);
    }
    match focus {
        Focus::Editor => (Focus::Tool, true),
        Focus::Tool => (Focus::Editor, false),
    }
}

/// A key typed without Ctrl goes to what has the keyboard, never to a
/// binding: the focused tool, unless something floats over the editor;
/// else the floating palette or box; else a page standing in for the
/// editor; else the editor, which types it.
pub proof fn a_plain_key_goes_to_what_has_the_keyboard(scene: KeyScene, key: Key)
    requires
        !key.ctrl,
    ensures
        scene.tool_focused && !scene.overlay() ==> key_route_of(scene, key) == KeyRoute::Tool,
        scene.palette ==> key_route_of(scene, key) == KeyRoute::Palette,
        !scene.palette && scene.search_box ==> key_route_of(scene, key) == KeyRoute::SearchBox,
        !scene.palette && !scene.search_box && scene.goto_line ==> key_route_of(scene, key)
            == KeyRoute::GotoLine,
        !scene.palette && !scene.search_box && !scene.goto_line && scene.project_search
            ==> key_route_of(scene, key) == KeyRoute::ProjectSearch,
        !scene.tool_focused && !scene.overlay() && scene.page ==> key_route_of(scene, key)
            == KeyRoute::Page,
        !scene.tool_focused && !scene.overlay() && !scene.page ==> key_route_of(scene, key)
            == KeyRoute::Editor,
{
}

/// The editor's own Ctrl keys: with the editor in front, Ctrl+W closes
/// the active tab, Ctrl+S saves it, and Ctrl+G goes to the next match;
/// and Ctrl+Q quits wherever the keyboard is, but in a focused tool's
/// program.
pub proof fn the_editor_keeps_its_ctrl_keys(scene: KeyScene, shift: bool)
    ensures
        !scene.tool_focused && !scene.overlay() && !scene.page ==> {
            &&& key_route_of(scene, (Key { code: KeyCode::Char('w'), ctrl: true, shift })) == KeyRoute::CloseTab
            &&& key_route_of(scene, (Key { code: KeyCode::Char('s'), ctrl: true, shift })) == KeyRoute::Save
            &&& key_route_of(scene, (Key { code: KeyCode::Char('g'), ctrl: true, shift })) == KeyRoute::FindNext
        },
        !(scene.tool_focused && !scene.overlay()) ==> key_route_of(
            scene,
            (Key { code: KeyCode::Char('q'), ctrl: true, shift }),
        ) == KeyRoute::Shared(Shared::Quit),
{
}

/// The prefix holds a key for the editor: held before a shared binding
/// it runs that binding, even while a program is running, which without
/// it gets the key; pressed twice it reaches the program as itself; and
/// before a key the editor has no use for, the program gets both, so
/// nothing is lost.
pub proof fn the_prefix_holds_one_key_for_the_editor(key: Key, running: bool, search_box_open: bool)
    requires
        key.ctrl,
        shared_of(key, search_box_open) is Some,
        !key.is_prefix_spec(),
    ensures
        running && key.code != KeyCode::Char('`') ==> tool_key_of(false, key, running, search_box_open)
            == ToolKey::Send,
        !running && key.code != KeyCode::Char('`') && key.code != KeyCode::Char('d') ==> tool_key_of(
            false,
            key,
            running,
            search_box_open,
        ) == ToolKey::Shared(shared_of(key, search_box_open)->0),
        tool_key_of(true, key, running, search_box_open) == ToolKey::PrefixedShared(
            shared_of(key, search_box_open)->0,
        ),
        tool_key_of(true, Key { code: KeyCode::Char(']'), ctrl: true, shift: false }, running, search_box_open)
            == ToolKey::SendPrefix,
        tool_key_of(true, Key { ctrl: false, ..key }, running, search_box_open)
            == ToolKey::SendPrefixAndKey,
{
}

} // verus!
