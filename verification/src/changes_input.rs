//! What the changes page does with keys and the mouse, beyond moving
//! between rows (see `changes_view`): folding and opening rows, the
//! diff's scrolling, the page's mouse, and what it tells the
//! application.

use crate::changes_view::{List, Pane};
use crate::diff_pane::{WHEEL_COLUMNS, WHEEL_LINES};
use crate::geometry::Rect;
use crate::input::{KeyCode, Mouse, MouseButton, MouseKind};
use crate::text::{is_space, trim, trimmed};
use vstd::prelude::*;

verus! {

/// What the application should do after the page handled a key.
#[derive(Clone, Debug, PartialEq, Eq)]
pub enum ChangesOutcome {
    Continue,
    /// Something to say in the status bar: a commit made, an action that
    /// failed (`error`).
    Notice { text: String, error: bool },
    /// Open a file in the editor; `conflicted` asks for the cursor at its
    /// first merge conflict.
    OpenFile { path: String, conflicted: bool },
}

/// A rule between panes that can be dragged to resize them.
#[derive(Clone, Copy, Debug, PartialEq, Eq, Structural)]
pub enum Divider {
    /// The file lists' right edge.
    Files,
    /// Between the unstaged and the staged list.
    Lists,
    /// Between the diff and the commit box.
    Commit,
}

/// A row of a file list, as far as the keys care: a directory, folded
/// or not, or a file; either with or without a directory above it.
#[derive(Clone, Copy, Debug, PartialEq, Eq, Structural)]
pub enum RowShape {
    Dir { collapsed: bool, has_parent: bool },
    File { has_parent: bool },
}

/// What a key in a file list does, besides moving the selection.
#[derive(Clone, Copy, Debug, PartialEq, Eq, Structural)]
pub enum ListAction {
    Nothing,
    /// Fold (`true`) or unfold the selected directory.
    Fold(bool),
    /// Move the keyboard into the diff of the selected file.
    EnterContent,
    /// Move on to the row after the selected one: an open directory's
    /// first entry.
    SelectNext,
    /// Select the directory above the selected row.
    SelectParent,
    /// Stage (or unstage) what is selected: a file or a directory.
    ToggleSelected,
    /// Stage (or unstage) everything in the list.
    ToggleAll,
    /// Open the selected file in the editor.
    OpenSelected,
    ToggleAmend,
}

/// What a key does in a list whose selected row is `row`, the diff being
/// on screen when `content_shown`: Enter folds or unfolds a directory
/// and goes into a file's diff; → unfolds a folded directory, steps into
/// an open one, and goes into a file's diff; ← folds an open directory
/// and otherwise goes to the directory above; Space stages what is
/// selected, `a` everything, `o` opens the file, `m` toggles amending.
pub open spec fn list_action_of(code: KeyCode, row: Option<RowShape>, content_shown: bool) -> ListAction {
    match code {
        KeyCode::Enter => match row {
            Some(RowShape::Dir { collapsed, .. }) => ListAction::Fold(!collapsed),
            Some(RowShape::File { .. }) => if content_shown {
                ListAction::EnterContent
            } else {
                ListAction::Nothing
            },
            None => ListAction::Nothing,
        },
        KeyCode::Right => match row {
            Some(RowShape::Dir { collapsed, .. }) => if collapsed {
                ListAction::Fold(false)
            } else {
                ListAction::SelectNext
            },
            Some(RowShape::File { .. }) => if content_shown {
                ListAction::EnterContent
            } else {
                ListAction::Nothing
            },
            None => ListAction::Nothing,
        },
        KeyCode::Left => match row {
            Some(RowShape::Dir { collapsed, has_parent }) => if !collapsed {
                ListAction::Fold(true)
            } else if has_parent {
                ListAction::SelectParent
            } else {
                ListAction::Nothing
            },
            Some(RowShape::File { has_parent }) => if has_parent {
                ListAction::SelectParent
            } else {
                ListAction::Nothing
            },
            None => ListAction::Nothing,
        },
        KeyCode::Char(' ') => ListAction::ToggleSelected,
        KeyCode::Char('a') => ListAction::ToggleAll,
        KeyCode::Char('o') => ListAction::OpenSelected,
        KeyCode::Char('m') => ListAction::ToggleAmend,
        _ => ListAction::Nothing,
    }
}

/// What a key does in a file list, besides moving the selection.
pub fn list_action(code: KeyCode, row: Option<RowShape>, content_shown: bool) -> (action: ListAction)
    ensures
        action == list_action_of(code, row, content_shown),
{
    match code {
        KeyCode::Enter => match row {
            Some(RowShape::Dir { collapsed, .. }) => ListAction::Fold(!collapsed),
            Some(RowShape::File { .. }) => if content_shown {
                ListAction::EnterContent
            } else {
                ListAction::Nothing
            },
            None => ListAction::Nothing,
        },
        KeyCode::Right => match row {
            Some(RowShape::Dir { collapsed, .. }) => if collapsed {
                ListAction::Fold(false)
            } else {
                ListAction::SelectNext
            },
            Some(RowShape::File { .. }) => if content_shown {
                ListAction::EnterContent
            } else {
                ListAction::Nothing
            },
            None => ListAction::Nothing,
        },
        KeyCode::Left => match row {
            Some(RowShape::Dir { collapsed, has_parent }) => if !collapsed {
                ListAction::Fold(true)
            } else if has_parent {
                ListAction::SelectParent
            } else {
                ListAction::Nothing
            },
            Some(RowShape::File { has_parent }) => if has_parent {
                ListAction::SelectParent
            } else {
                ListAction::Nothing
            },
            None => ListAction::Nothing,
        },
        KeyCode::Char(c) => if c == ' ' {
            ListAction::ToggleSelected
        } else if c == 'a' {
            ListAction::ToggleAll
        } else if c == 'o' {
            ListAction::OpenSelected
        } else if c == 'm' {
            ListAction::ToggleAmend
        } else {
            ListAction::Nothing
        },
        _ => ListAction::Nothing,
    }
}

/// How far Page Up and Page Down move in a pane `height` rows tall that
/// spends `chrome` rows on a heading and the like: a screenful less
/// those, and at least one.
pub open spec fn page_for(height: nat, chrome: nat) -> nat {
    if height > chrome + 1 { (height - chrome) as nat } else { 1 }
}

/// How far Page Up and Page Down move in a pane `height` rows tall,
/// `chrome` of them not rows of its own.
pub fn page_size(height: u16, chrome: u16) -> (page: usize)
    ensures
        page == page_for(height as nat, chrome as nat),
        page >= 1,
{
    let rows = height.saturating_sub(chrome) as usize;
    if rows > 1 {
        rows
    } else {
        1
    }
}

/// What a key does in the diff pane.
#[derive(Clone, Copy, Debug, PartialEq, Eq, Structural)]
pub enum ContentAction {
    Nothing,
    /// Scroll to this first row.
    ScrollTo(usize),
    /// Scroll sideways by this many columns.
    Sideways(isize),
    /// Move the keyboard back to the list the diff follows.
    BackToList,
}

/// What a key does in the diff scrolled to `scroll` and sideways to
/// `col`, a page being `page` rows: the arrows scroll by a row, Page Up
/// and Page Down by a page, Home and End to the ends (the render keeps
/// the end within the diff); → and ← sideways, and ← goes back to the
/// list once nothing is scrolled sideways.
pub open spec fn content_action_of(code: KeyCode, scroll: nat, page: nat, col: nat) -> ContentAction {
    match code {
        KeyCode::Up => ContentAction::ScrollTo(if scroll > 0 { (scroll - 1) as usize } else { 0 }),
        KeyCode::Down => ContentAction::ScrollTo(
            if scroll + 1 <= usize::MAX { (scroll + 1) as usize } else { usize::MAX },
        ),
        KeyCode::PageUp => ContentAction::ScrollTo(
            if scroll > page { (scroll - page) as usize } else { 0 },
        ),
        KeyCode::PageDown => ContentAction::ScrollTo(
            if scroll + page <= usize::MAX { (scroll + page) as usize } else { usize::MAX },
        ),
        KeyCode::Home => ContentAction::ScrollTo(0),
        KeyCode::End => ContentAction::ScrollTo(usize::MAX),
        KeyCode::Right => ContentAction::Sideways(WHEEL_COLUMNS as isize),
        KeyCode::Left => if col > 0 {
            ContentAction::Sideways((-(WHEEL_COLUMNS as int)) as isize)
        } else {
            ContentAction::BackToList
        },
        _ => ContentAction::Nothing,
    }
}

/// What a key does in the diff pane.
pub fn content_action(code: KeyCode, scroll: usize, page: usize, col: usize) -> (action: ContentAction)
    ensures
        action == content_action_of(code, scroll as nat, page as nat, col as nat),
{
    match code {
        KeyCode::Up => ContentAction::ScrollTo(scroll.saturating_sub(1)),
        KeyCode::Down => ContentAction::ScrollTo(scroll.saturating_add(1)),
        KeyCode::PageUp => ContentAction::ScrollTo(scroll.saturating_sub(page)),
        KeyCode::PageDown => ContentAction::ScrollTo(scroll.saturating_add(page)),
        KeyCode::Home => ContentAction::ScrollTo(0),
        KeyCode::End => ContentAction::ScrollTo(usize::MAX),
        KeyCode::Right => ContentAction::Sideways(4),
        KeyCode::Left => if col > 0 {
            ContentAction::Sideways(-4)
        } else {
            ContentAction::BackToList
        },
        _ => ContentAction::Nothing,
    }
}

/// A pane's first row after a notch of the wheel, down or up.
pub open spec fn wheeled(scroll: nat, down: bool) -> nat {
    if down {
        if scroll + WHEEL_LINES <= usize::MAX { (scroll + WHEEL_LINES) as nat } else { usize::MAX as nat }
    } else if scroll > WHEEL_LINES {
        (scroll - WHEEL_LINES) as nat
    } else {
        0
    }
}

/// A pane's first row after a notch of the wheel.
pub fn wheel(scroll: usize, down: bool) -> (first: usize)
    ensures
        first == wheeled(scroll as nat, down),
{
    if down {
        scroll.saturating_add(WHEEL_LINES)
    } else {
        scroll.saturating_sub(WHEEL_LINES)
    }
}

/// Where the page's parts were drawn, and what is being dragged, when a
/// mouse action comes.
#[derive(Clone, Copy, Debug, PartialEq, Eq, Structural)]
pub struct ChangesScene {
    /// The rule being dragged, which owns the mouse until the button
    /// comes up.
    pub divider_drag: Option<Divider>,
    /// The diff's sideways scrollbar is being dragged.
    pub scrollbar_drag: bool,
    /// A selection in the message is being dragged.
    pub message_drag: bool,
    pub files_rule: Rect,
    pub lists_rule: Rect,
    pub commit_rule: Rect,
    pub unstaged: Rect,
    pub staged: Rect,
    pub commit: Rect,
    pub content: Rect,
    /// The diff's sideways scrollbar, empty while hidden.
    pub scrollbar: Rect,
    /// The amend toggle.
    pub amend: Rect,
    /// Each list's first row shown, and how many rows it has.
    pub unstaged_scroll: usize,
    pub unstaged_rows: usize,
    pub staged_scroll: usize,
    pub staged_rows: usize,
    /// The expand button under the pointer in the diff, by index.
    pub button: Option<usize>,
}

/// What the page does with a mouse action.
#[derive(Clone, Copy, Debug, PartialEq, Eq, Structural)]
pub enum ChangesMouse {
    Nothing,
    /// Move the rule being dragged to the pointer.
    DragDivider(Divider),
    /// The rule's drag ends: the sizes changed, to be kept.
    EndDividerDrag,
    /// Start dragging a rule, moving it to the pointer.
    StartDividerDrag(Divider),
    /// Move the diff's scrollbar thumb to the pointer's column.
    DragScrollbar,
    EndScrollbarDrag,
    /// The message's editor takes the action; `focus` gives it the
    /// keyboard too.
    Message { focus: bool },
    /// A notch of the wheel over a pane.
    Scroll { pane: Pane, down: bool },
    /// Scroll the diff sideways by this many columns.
    Sideways(isize),
    /// Grab the diff's scrollbar, moving its thumb to the pointer.
    GrabScrollbar,
    ToggleAmend,
    /// Give a list the keyboard, selecting nothing: the click was on its
    /// heading or past its rows.
    FocusList(List),
    /// Give a list the keyboard and select a row, folding or unfolding
    /// it when it is a directory.
    SelectRow(List, usize),
    /// Give a pane the keyboard.
    Focus(Pane),
    /// Press an expand button of the diff, by index, giving the diff the
    /// keyboard.
    PressButton(usize),
}

/// The pane under `(x, y)`, the lists first.
pub open spec fn pane_at(scene: ChangesScene, x: int, y: int) -> Option<Pane> {
    if scene.unstaged.holds(x, y) {
        Some(Pane::Unstaged)
    } else if scene.staged.holds(x, y) {
        Some(Pane::Staged)
    } else if scene.commit.holds(x, y) {
        Some(Pane::Commit)
    } else if scene.content.holds(x, y) {
        Some(Pane::Content)
    } else {
        None
    }
}

/// What a left press on a list does: on its heading row, or past its
/// rows, it only takes the keyboard; on a row, it selects it.
pub open spec fn list_click(list: List, area: Rect, scroll: nat, rows: nat, y: int) -> ChangesMouse {
    if y > area.y && scroll + (y - area.y - 1) < rows {
        ChangesMouse::SelectRow(list, (scroll + (y - area.y - 1)) as usize)
    } else {
        ChangesMouse::FocusList(list)
    }
}

/// What the page does with a mouse action: a rule being dragged, or a
/// drag in the scrollbar or the message, keeps the mouse until the
/// button comes up; a press on a rule starts dragging it; otherwise it
/// goes to the pane under the pointer: the wheel scrolls it (the message
/// scrolls itself), sideways in the diff; a press grabs the scrollbar,
/// toggles amending, selects a list's row, places the message's cursor,
/// or presses an expand button, giving the pane the keyboard.
pub open spec fn changes_mouse_of(scene: ChangesScene, mouse: Mouse) -> ChangesMouse {
    let (x, y) = (mouse.column as int, mouse.row as int);
    let kind = mouse.kind;
    let left = kind == MouseKind::Down(MouseButton::Left);
    let rule = if scene.files_rule.holds(x, y) {
        Some(Divider::Files)
    } else if scene.lists_rule.holds(x, y) {
        Some(Divider::Lists)
    } else if scene.commit_rule.holds(x, y) {
        Some(Divider::Commit)
    } else {
        None
    };
    if scene.divider_drag is Some {
        if kind is Drag {
            ChangesMouse::DragDivider(scene.divider_drag->0)
        } else if kind is Up {
            ChangesMouse::EndDividerDrag
        } else {
            ChangesMouse::Nothing
        }
    } else if left && rule is Some {
        ChangesMouse::StartDividerDrag(rule->0)
    } else if (scene.scrollbar_drag || scene.message_drag) && (kind is Drag || kind is Up) {
        if kind is Drag && scene.scrollbar_drag {
            ChangesMouse::DragScrollbar
        } else if kind is Up && scene.scrollbar_drag {
            ChangesMouse::EndScrollbarDrag
        } else {
            ChangesMouse::Message { focus: false }
        }
    } else {
        match pane_at(scene, x, y) {
            None => ChangesMouse::Nothing,
            Some(pane) => if (kind == MouseKind::ScrollUp || kind == MouseKind::ScrollDown) && pane
                == Pane::Commit {
                ChangesMouse::Message { focus: false }
            } else if kind == MouseKind::ScrollUp {
                ChangesMouse::Scroll { pane, down: false }
            } else if kind == MouseKind::ScrollDown {
                ChangesMouse::Scroll { pane, down: true }
            } else if (kind == MouseKind::ScrollRight || kind == MouseKind::ScrollLeft) && pane
                == Pane::Content {
                ChangesMouse::Sideways(
                    if kind == MouseKind::ScrollRight {
                        WHEEL_COLUMNS as isize
                    } else {
                        (-(WHEEL_COLUMNS as int)) as isize
                    },
                )
            } else if left && scene.scrollbar.holds(x, y) {
                ChangesMouse::GrabScrollbar
            } else if left && scene.amend.holds(x, y) {
                ChangesMouse::ToggleAmend
            } else if left {
                match pane {
                    Pane::Unstaged => list_click(
                        List::Unstaged,
                        scene.unstaged,
                        scene.unstaged_scroll as nat,
                        scene.unstaged_rows as nat,
                        y,
                    ),
                    Pane::Staged => list_click(
                        List::Staged,
                        scene.staged,
                        scene.staged_scroll as nat,
                        scene.staged_rows as nat,
                        y,
                    ),
                    Pane::Commit => if y > scene.commit.y {
                        ChangesMouse::Message { focus: true }
                    } else {
                        ChangesMouse::Focus(Pane::Commit)
                    },
                    Pane::Content => match scene.button {
                        Some(b) => ChangesMouse::PressButton(b),
                        None => ChangesMouse::Focus(Pane::Content),
                    },
                }
            } else {
                ChangesMouse::Nothing
            },
        }
    }
}

fn click_list(list: List, area: Rect, scroll: usize, rows: usize, y: u16) -> (action: ChangesMouse)
    ensures
        action == list_click(list, area, scroll as nat, rows as nat, y as int),
{
    if y > area.y {
        let offset = (y - area.y - 1) as usize;
        if scroll < rows && offset < rows - scroll {
            return ChangesMouse::SelectRow(list, scroll + offset);
        }
    }
    ChangesMouse::FocusList(list)
}

/// What the page does with a mouse action.
pub fn changes_mouse(scene: &ChangesScene, mouse: Mouse) -> (action: ChangesMouse)
    ensures
        action == changes_mouse_of(*scene, mouse),
{
    let (x, y) = (mouse.column, mouse.row);
    let kind = mouse.kind;
    let left = match kind {
        MouseKind::Down(MouseButton::Left) => true,
        _ => false,
    };
    let drag = match kind {
        MouseKind::Drag(_) => true,
        _ => false,
    };
    let up = match kind {
        MouseKind::Up(_) => true,
        _ => false,
    };
    if let Some(divider) = scene.divider_drag {
        return if drag {
            ChangesMouse::DragDivider(divider)
        } else if up {
            ChangesMouse::EndDividerDrag
        } else {
            ChangesMouse::Nothing
        };
    }
    if left {
        if scene.files_rule.contains(x, y) {
            return ChangesMouse::StartDividerDrag(Divider::Files);
        } else if scene.lists_rule.contains(x, y) {
            return ChangesMouse::StartDividerDrag(Divider::Lists);
        } else if scene.commit_rule.contains(x, y) {
            return ChangesMouse::StartDividerDrag(Divider::Commit);
        }
    }
    if (scene.scrollbar_drag || scene.message_drag) && (drag || up) {
        return if drag && scene.scrollbar_drag {
            ChangesMouse::DragScrollbar
        } else if up && scene.scrollbar_drag {
            ChangesMouse::EndScrollbarDrag
        } else {
            ChangesMouse::Message { focus: false }
        };
    }
    let pane = if scene.unstaged.contains(x, y) {
        Pane::Unstaged
    } else if scene.staged.contains(x, y) {
        Pane::Staged
    } else if scene.commit.contains(x, y) {
        Pane::Commit
    } else if scene.content.contains(x, y) {
        Pane::Content
    } else {
        return ChangesMouse::Nothing;
    };
    match kind {
        MouseKind::ScrollUp if pane == Pane::Commit => ChangesMouse::Message { focus: false },
        MouseKind::ScrollDown if pane == Pane::Commit => ChangesMouse::Message { focus: false },
        MouseKind::ScrollUp => ChangesMouse::Scroll { pane, down: false },
        MouseKind::ScrollDown => ChangesMouse::Scroll { pane, down: true },
        MouseKind::ScrollRight if pane == Pane::Content => ChangesMouse::Sideways(4),
        MouseKind::ScrollLeft if pane == Pane::Content => ChangesMouse::Sideways(-4),
        _ => {
            if !left {
                ChangesMouse::Nothing
            } else if scene.scrollbar.contains(x, y) {
                ChangesMouse::GrabScrollbar
            } else if scene.amend.contains(x, y) {
                ChangesMouse::ToggleAmend
            } else {
                match pane {
                    Pane::Unstaged => click_list(
                        List::Unstaged,
                        scene.unstaged,
                        scene.unstaged_scroll,
                        scene.unstaged_rows,
                        y,
                    ),
                    Pane::Staged => click_list(
                        List::Staged,
                        scene.staged,
                        scene.staged_scroll,
                        scene.staged_rows,
                        y,
                    ),
                    Pane::Commit => if y > scene.commit.y {
                        ChangesMouse::Message { focus: true }
                    } else {
                        ChangesMouse::Focus(Pane::Commit)
                    },
                    Pane::Content => match scene.button {
                        Some(b) => ChangesMouse::PressButton(b),
                        None => ChangesMouse::Focus(Pane::Content),
                    },
                }
            }
        },
    }
}

/// The first of `buttons` under `(x, y)`, by index.
pub fn button_at(buttons: &[Rect], x: u16, y: u16) -> (found: Option<usize>)
    ensures
        match found {
            Some(i) => i < buttons@.len() && buttons@[i as int].holds(x as int, y as int)
                && forall|j: int| 0 <= j < i ==> !buttons@[j].holds(x as int, y as int),
            None => forall|j: int| 0 <= j < buttons@.len() ==> !buttons@[j].holds(x as int, y as int),
        },
{
    let mut i: usize = 0;
    while i < buttons.len()
        invariant
            i <= buttons@.len(),
            forall|j: int| 0 <= j < i ==> !buttons@[j].holds(x as int, y as int),
        decreases buttons@.len() - i,
    {
        if buttons[i].contains(x, y) {
            return Some(i);
        }
        i = i + 1;
    }
    None
}

/// What opening the selected change does.
#[derive(Clone, Debug, PartialEq, Eq)]
pub enum OpenChange {
    /// A submodule isn't a file to open: its changes are on its own tab,
    /// to be shown.
    ShowSubmodule(String),
    /// The file is gone from the working tree; say so.
    Deleted(String),
    /// Open the file, at its first conflict when it is conflicted.
    File { path: String, conflicted: bool },
}

/// What opening a change of `path` does: a submodule's tab is shown, a
/// deleted file is said to be deleted, any other file is opened.
pub fn open_change(path: String, submodule: bool, deleted: bool, conflicted: bool) -> (open: OpenChange)
    ensures
        submodule ==> (open matches OpenChange::ShowSubmodule(p) && p@ == path@),
        !submodule && deleted ==> (open matches OpenChange::Deleted(p) && p@ == path@),
        !submodule && !deleted ==> (open matches OpenChange::File { path: p, conflicted: c } && p@
            == path@ && c == conflicted),
{
    if submodule {
        OpenChange::ShowSubmodule(path)
    } else if deleted {
        OpenChange::Deleted(path)
    } else {
        OpenChange::File { path, conflicted }
    }
}

/// The notice for a deleted file asked to be opened.
pub fn deleted_notice(path: &str) -> (outcome: ChangesOutcome)
    ensures
        outcome matches ChangesOutcome::Notice { text, error } && text@ == path@ + " is deleted"@
            && !error,
{
    let text = String::from_str(path).concat(" is deleted");
    ChangesOutcome::Notice { text, error: false }
}

/// The first line of `text`: up to the first line feed, without the
/// carriage return before it.
pub open spec fn first_line(text: Seq<char>) -> Seq<char> {
    if exists|i: int| 0 <= i < text.len() && text[i] == '\n' {
        let i = choose|i: int|
            0 <= i < text.len() && text[i] == '\n' && forall|j: int| 0 <= j < i ==> text[j] != '\n';
        if i > 0 && text[i - 1] == '\r' {
            text.subrange(0, i - 1)
        } else {
            text.subrange(0, i)
        }
    } else {
        text
    }
}

/// The first line of `text`, as `lines().next()` gives it.
pub fn first_line_of(text: &str) -> (line: &str)
    ensures
        line@ == first_line(text@),
{
    let n = text.unicode_len();
    let mut i: usize = 0;
    while i < n
        invariant
            n == text@.len(),
            i <= n,
            forall|j: int| 0 <= j < i ==> text@[j] != '\n',
        decreases n - i,
    {
        if text.get_char(i) == '\n' {
            let end = if i > 0 && text.get_char(i - 1) == '\r' {
                i - 1
            } else {
                i
            };
            proof {
                let k = choose|k: int|
                    0 <= k < text@.len() && text@[k] == '\n' && forall|j: int|
                        0 <= j < k ==> text@[j] != '\n';
                assert(k == i as int) by {
                    if k < i {
                    } else if k > i {
                        assert(text@[i as int] == '\n');
                    }
                }
            }
            return text.substring_char(0, end);
        }
        i = i + 1;
    }
    proof {
        assert(text@.subrange(0, n as int) =~= text@);
    }
    text.substring_char(0, n)
}

/// The notice for a commit made: `Committed` (or `Amended`), the new
/// commit's id, and the message's summary, its trimmed first line.
pub open spec fn commit_notice_text(amended: bool, id: Seq<char>, message: Seq<char>) -> Seq<char> {
    (if amended { "Amended "@ } else { "Committed "@ }) + id + " "@ + first_line(trimmed(message))
}

/// The notice for a commit made, `id` being its short id.
pub fn commit_notice(amended: bool, id: &str, message: &str) -> (outcome: ChangesOutcome)
    ensures
        outcome matches ChangesOutcome::Notice { text, error } && text@ == commit_notice_text(
            amended,
            id@,
            message@,
        ) && !error,
{
    let mut text = String::from_str(if amended {
        "Amended "
    } else {
        "Committed "
    });
    text.append(id);
    text.append(" ");
    text.append(first_line_of(trim(message)));
    ChangesOutcome::Notice { text, error: false }
}

/// What a stage or unstage names: a directory's path and a slash, or the
/// file's path.
pub fn what_is_staged(path: &str, is_dir: bool) -> (what: String)
    ensures
        what@ == (if is_dir { path@ + "/"@ } else { path@ }),
{
    if is_dir {
        String::from_str(path).concat("/")
    } else {
        String::from_str(path)
    }
}

/// The notice for a stage or unstage that failed.
pub fn staging_failed(list: List, what: &str, reason: &str) -> (outcome: ChangesOutcome)
    ensures
        outcome matches ChangesOutcome::Notice { text, error } && error && text@ == "Could not "@
            + (if list == List::Unstaged { "stage"@ } else { "unstage"@ }) + " "@ + what@ + ": "@
            + reason@,
{
    let mut text = String::from_str("Could not ");
    text.append(
        match list {
            List::Unstaged => "stage",
            List::Staged => "unstage",
        },
    );
    text.append(" ");
    text.append(what);
    text.append(": ");
    text.append(reason);
    ChangesOutcome::Notice { text, error: true }
}

/// What the diff pane says with no row selected: the scan still going
/// over a tree that looks clean, a clean tree, or that the list the diff
/// follows is empty.
pub fn no_selection_message(scanning: bool, clean: bool, list: List) -> (text: &'static str)
    ensures
        text@ == (if scanning && clean {
            "scanning…"@
        } else if clean {
            "Nothing to commit: the working tree is clean"@
        } else if list == List::Unstaged {
            "No unstaged changes"@
        } else {
            "No staged changes"@
        }),
{
    if scanning && clean {
        "scanning…"
    } else if clean {
        "Nothing to commit: the working tree is clean"
    } else {
        match list {
            List::Unstaged => "No unstaged changes",
            List::Staged => "No staged changes",
        }
    }
}

/// What the page says when there is no repository to show: a submodule
/// not initialized says so; otherwise that the directory isn't in a
/// repository, and why when there is a reason.
pub fn not_a_repository_message(error: Option<&str>) -> (text: String)
    ensures
        text@ == match error {
            Some(e) => if e@ == "Submodule not initialized"@ {
                e@
            } else if e@.len() > 0 {
                "Not a git repository: "@ + e@
            } else {
                "Not a git repository"@
            },
            None => "Not a git repository"@,
        },
{
    match error {
        Some(e) => {
            let not_initialized = String::from_str("Submodule not initialized");
            let given = String::from_str(e);
            if given.eq(&not_initialized) {
                given
            } else if e.unicode_len() > 0 {
                String::from_str("Not a git repository: ").concat(e)
            } else {
                String::from_str("Not a git repository")
            }
        },
        None => String::from_str("Not a git repository"),
    }
}

/// `path` without `prefix` at its start, or all of it when it doesn't
/// start with that.
pub open spec fn stripped(path: Seq<char>, prefix: Seq<char>) -> Seq<char> {
    if prefix.len() <= path.len() && path.subrange(0, prefix.len() as int) == prefix {
        path.subrange(prefix.len() as int, path.len() as int)
    } else {
        path
    }
}

fn strip_prefix<'a>(path: &'a str, prefix: &str) -> (rest: &'a str)
    ensures
        rest@ == stripped(path@, prefix@),
{
    let n = path.unicode_len();
    let m = prefix.unicode_len();
    if m > n {
        return path;
    }
    let mut i: usize = 0;
    while i < m
        invariant
            n == path@.len(),
            m == prefix@.len(),
            m <= n,
            i <= m,
            forall|j: int| 0 <= j < i ==> path@[j] == prefix@[j],
        decreases m - i,
    {
        if path.get_char(i) != prefix.get_char(i) {
            proof {
                assert(path@.subrange(0, m as int)[i as int] != prefix@[i as int]);
            }
            return path;
        }
        i = i + 1;
    }
    proof {
        assert(path@.subrange(0, m as int) =~= prefix@);
    }
    path.substring_char(m, n)
}

/// A file's line in the summary of a directory: the letter of its change,
/// its path under the directory `dir`, and its counts.
pub fn directory_file_line(letter: &str, path: &str, dir: &str, counts: &str) -> (line: String)
    ensures
        line@ == letter@ + " "@ + stripped(path@, dir@ + "/"@) + "  "@ + trimmed(counts@),
{
    let mut prefix = String::from_str(dir);
    prefix.append("/");
    let mut line = String::from_str(letter);
    line.append(" ");
    line.append(strip_prefix(path, prefix.as_str()));
    line.append("  ");
    line.append(trim(counts));
    line
}

} // verus!
