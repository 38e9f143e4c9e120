//! Where the application sends a mouse action, given what is on the
//! screen and what is under the pointer.
//!
//! Whatever floats over the rest gets the mouse first: a divider being
//! dragged, the palette, the project search, the search box, the go to
//! line box. A press outside the palette or the project search closes it
//! and goes no further; a press outside the search box or the go to line
//! box closes it too, but the wheel still scrolls what is under it, so
//! the matches can be looked over. Then come the status bar's build
//! segments, the tool pane (its divider, a drag that started in it, its
//! tab bar, its terminal), the page in the editor's place, and last the
//! editor: a drag that started in it, the tab bar, the text.

use crate::geometry::Rect;
use crate::input::{Mouse, MouseButton, MouseKind};
use vstd::prelude::*;

verus! {

/// What a click on a tab bar hit.
#[derive(Clone, Copy, Debug, PartialEq, Eq, Structural)]
pub enum TabHit {
    /// The tab itself, by index.
    Tab(usize),
    /// The tab's close button.
    Close(usize),
}

/// What the application knows of the screen when a mouse action comes:
/// what is open, and what of it is under the pointer (whether a thing
/// "has" the pointer: it is over it, or a drag that started in it is
/// going on).
#[derive(Clone, Copy, Debug, PartialEq, Eq, Structural)]
pub struct MouseScene {
    /// The divider between the editor and the tool pane is being dragged.
    pub dragging_divider: bool,
    /// The palette is open, and whether it has the pointer.
    pub palette: Option<bool>,
    /// The project search is showing, and whether it has the pointer.
    pub project_search: Option<bool>,
    /// The search box is open, and whether it has the pointer.
    pub search_box: Option<bool>,
    /// The go to line box is open, and whether it has the pointer.
    pub goto_line: Option<bool>,
    /// The status bar's configuration and target segments.
    pub status_configuration: Rect,
    pub status_target: Rect,
    /// The tool pane is showing.
    pub tool_visible: bool,
    /// The divider above the tool pane.
    pub divider: Rect,
    /// A drag that started in the active tool is going on.
    pub tool_dragging: bool,
    /// What of the tool pane's tab bar is under the pointer.
    pub tool_tab: Option<TabHit>,
    /// The tool's terminal.
    pub tool_term: Rect,
    /// A source location is under the pointer in the tool's output.
    pub tool_link: bool,
    /// A page stands in the editor's place.
    pub page: bool,
    /// What of the page's tab bar is under the pointer.
    pub page_tab: Option<TabHit>,
    /// The page has the pointer.
    pub page_has_pointer: bool,
    /// A drag that started in the active tab's editor is going on.
    pub editor_dragging: bool,
    /// What of the editor's tab bar is under the pointer.
    pub editor_tab: Option<TabHit>,
    /// The active tab's editor is under the pointer; false with no tab.
    pub editor_under: bool,
}

/// Where a mouse action goes.
#[derive(Clone, Copy, Debug, PartialEq, Eq, Structural)]
pub enum MouseRoute {
    /// Nowhere: nothing acts on it.
    Nothing,
    /// Move the divider being dragged to the pointer's row.
    DragDivider,
    /// The divider's drag ends.
    EndDividerDrag,
    /// Start dragging the divider, moving it to the pointer's row.
    StartDividerDrag,
    Palette,
    ClosePalette,
    ProjectSearch,
    CloseProjectSearch,
    SearchBox,
    CloseSearchBox,
    GotoLine,
    CloseGotoLine,
    /// Open the palette of configurations.
    PickConfiguration,
    /// Open the palette of targets.
    PickTarget,
    /// The tool's view, and whether the keyboard goes to the tool too.
    Tool { focus: bool },
    /// A press on the tool pane's tab bar: the keyboard goes to the tool,
    /// and the tab is shown or its tool killed.
    ToolTab(TabHit),
    /// Open the file at the source location clicked in the output.
    OpenLink,
    /// A press on the page's tab bar: its close button leaves the page,
    /// a tab (a git page's repository) is shown.
    PageTab(TabHit),
    /// The page, and whether the keyboard goes to it too.
    Page { focus: bool },
    /// A drag in the editor, followed past the view's edge.
    EditorDrag,
    /// A press on the editor's tab bar: the tab is shown, or asked to be
    /// closed.
    EditorTab(TabHit),
    /// The editor, and whether the keyboard goes to it too.
    Editor { focus: bool },
}

/// Whether the action is a press of any button.
pub open spec fn pressed(kind: MouseKind) -> bool {
    kind is Down
}

/// Whether the action is a press of the left button.
pub open spec fn left_press(kind: MouseKind) -> bool {
    kind == MouseKind::Down(MouseButton::Left)
}

/// Whether the action is a drag or a release.
pub open spec fn drag_or_release(kind: MouseKind) -> bool {
    kind is Drag || kind is Up
}

/// Where the parts under the overlays send an action: the status bar's
/// segments, the tool pane, the page, the editor.
pub open spec fn route_below(scene: MouseScene, mouse: Mouse) -> MouseRoute {
    let (x, y) = (mouse.column as int, mouse.row as int);
    let kind = mouse.kind;
    if left_press(kind) && scene.status_configuration.holds(x, y) {
        MouseRoute::PickConfiguration
    } else if left_press(kind) && scene.status_target.holds(x, y) {
        MouseRoute::PickTarget
    } else if scene.tool_visible && left_press(kind) && scene.divider.holds(x, y) {
        MouseRoute::StartDividerDrag
    } else if scene.tool_visible && scene.tool_dragging && drag_or_release(kind) {
        MouseRoute::Tool { focus: false }
    } else if scene.tool_visible && scene.tool_tab is Some {
        if left_press(kind) {
            MouseRoute::ToolTab(scene.tool_tab->0)
        } else {
            MouseRoute::Nothing
        }
    } else if scene.tool_visible && scene.tool_term.holds(x, y) {
        if left_press(kind) && scene.tool_link {
            MouseRoute::OpenLink
        } else {
            MouseRoute::Tool { focus: pressed(kind) }
        }
    } else if scene.page {
        if scene.page_tab is Some {
            if left_press(kind) {
                MouseRoute::PageTab(scene.page_tab->0)
            } else {
                MouseRoute::Nothing
            }
        } else if scene.page_has_pointer {
            MouseRoute::Page { focus: pressed(kind) }
        } else {
            MouseRoute::Nothing
        }
    } else if scene.editor_dragging && drag_or_release(kind) {
        MouseRoute::EditorDrag
    } else if scene.editor_tab is Some {
        if left_press(kind) {
            MouseRoute::EditorTab(scene.editor_tab->0)
        } else {
            MouseRoute::Nothing
        }
    } else if scene.editor_under {
        MouseRoute::Editor { focus: pressed(kind) }
    } else {
        MouseRoute::Nothing
    }
}

/// Where a mouse action goes: first to what floats over the rest, then
/// to what is under it.
pub open spec fn route_of(scene: MouseScene, mouse: Mouse) -> MouseRoute {
    let kind = mouse.kind;
    if scene.dragging_divider {
        if kind is Drag {
            MouseRoute::DragDivider
        } else if kind is Up {
            MouseRoute::EndDividerDrag
        } else {
            MouseRoute::Nothing
        }
    } else if scene.palette is Some {
        if scene.palette->0 {
            MouseRoute::Palette
        } else if pressed(kind) {
            MouseRoute::ClosePalette
        } else {
            MouseRoute::Nothing
        }
    } else if scene.project_search is Some {
        if scene.project_search->0 {
            MouseRoute::ProjectSearch
        } else if pressed(kind) {
            MouseRoute::CloseProjectSearch
        } else {
            MouseRoute::Nothing
        }
    } else if scene.search_box == Some(true) {
        MouseRoute::SearchBox
    } else if scene.search_box == Some(false) && pressed(kind) {
        MouseRoute::CloseSearchBox
    } else if scene.goto_line == Some(true) {
        MouseRoute::GotoLine
    } else if scene.goto_line == Some(false) && pressed(kind) {
        MouseRoute::CloseGotoLine
    } else {
        route_below(scene, mouse)
    }
}

fn is_pressed(kind: MouseKind) -> (p: bool)
    ensures
        p == pressed(kind),
{
    match kind {
        MouseKind::Down(_) => true,
        _ => false,
    }
}

fn is_left_press(kind: MouseKind) -> (p: bool)
    ensures
        p == left_press(kind),
{
    match kind {
        MouseKind::Down(MouseButton::Left) => true,
        _ => false,
    }
}

fn is_drag_or_release(kind: MouseKind) -> (p: bool)
    ensures
        p == drag_or_release(kind),
{
    match kind {
        MouseKind::Drag(_) | MouseKind::Up(_) => true,
        _ => false,
    }
}

fn route_under(scene: &MouseScene, mouse: Mouse) -> (route: MouseRoute)
    ensures
        route == route_below(*scene, mouse),
{
    let (x, y) = (mouse.column, mouse.row);
    let kind = mouse.kind;
    let left = is_left_press(kind);
    if left && scene.status_configuration.contains(x, y) {
        return MouseRoute::PickConfiguration;
    }
    if left && scene.status_target.contains(x, y) {
        return MouseRoute::PickTarget;
    }
    if scene.tool_visible {
        if left && scene.divider.contains(x, y) {
            return MouseRoute::StartDividerDrag;
        }
        if scene.tool_dragging && is_drag_or_release(kind) {
            return MouseRoute::Tool { focus: false };
        }
        if let Some(hit) = scene.tool_tab {
            return if left {
                MouseRoute::ToolTab(hit)
            } else {
                MouseRoute::Nothing
            };
        }
        if scene.tool_term.contains(x, y) {
            if left && scene.tool_link {
                return MouseRoute::OpenLink;
            }
            return MouseRoute::Tool { focus: is_pressed(kind) };
        }
    }
    if scene.page {
        if let Some(hit) = scene.page_tab {
            return if left {
                MouseRoute::PageTab(hit)
            } else {
                MouseRoute::Nothing
            };
        }
        if scene.page_has_pointer {
            return MouseRoute::Page { focus: is_pressed(kind) };
        }
        return MouseRoute::Nothing;
    }
    if scene.editor_dragging && is_drag_or_release(kind) {
        return MouseRoute::EditorDrag;
    }
    if let Some(hit) = scene.editor_tab {
        return if left {
            MouseRoute::EditorTab(hit)
        } else {
            MouseRoute::Nothing
        };
    }
    if scene.editor_under {
        return MouseRoute::Editor { focus: is_pressed(kind) };
    }
    MouseRoute::Nothing
}

/// Where a mouse action goes.
pub fn route_mouse(scene: &MouseScene, mouse: Mouse) -> (route: MouseRoute)
    ensures
        route == route_of(*scene, mouse),
{
    let kind = mouse.kind;
    let pressed = is_pressed(kind);
    if scene.dragging_divider {
        return match kind {
            MouseKind::Drag(_) => MouseRoute::DragDivider,
            MouseKind::Up(_) => MouseRoute::EndDividerDrag,
            _ => MouseRoute::Nothing,
        };
    }
    if let Some(has) = scene.palette {
        return if has {
            MouseRoute::Palette
        } else if pressed {
            MouseRoute::ClosePalette
        } else {
            MouseRoute::Nothing
        };
    }
    if let Some(has) = scene.project_search {
        return if has {
            MouseRoute::ProjectSearch
        } else if pressed {
            MouseRoute::CloseProjectSearch
        } else {
            MouseRoute::Nothing
        };
    }
    if let Some(has) = scene.search_box {
        if has {
            return MouseRoute::SearchBox;
        }
        if pressed {
            return MouseRoute::CloseSearchBox;
        }
    }
    if let Some(has) = scene.goto_line {
        if has {
            return MouseRoute::GotoLine;
        }
        if pressed {
            return MouseRoute::CloseGotoLine;
        }
    }
    route_under(scene, mouse)
}

/// Whether the action spends the prefix: any press does, being the
/// gesture the prefix was held for.
pub fn spends_prefix(mouse: Mouse) -> (spent: bool)
    ensures
        spent == pressed(mouse.kind),
{
    is_pressed(mouse.kind)
}

/// While the palette is open nothing under it gets the mouse: what it
/// doesn't take, a press outside closing it, goes nowhere.
pub proof fn the_palette_keeps_the_mouse_from_what_is_under_it(scene: MouseScene, mouse: Mouse)
    requires
        !scene.dragging_divider,
        scene.palette is Some,
    ensures
        route_of(scene, mouse) == MouseRoute::Palette || route_of(scene, mouse)
            == MouseRoute::ClosePalette || route_of(scene, mouse) == MouseRoute::Nothing,
{
}

/// With the search box open, the wheel outside it still scrolls the
/// editor under it, so the matches can be looked over; a press outside
/// it only closes it.
pub proof fn the_wheel_scrolls_the_editor_under_the_search_box(scene: MouseScene, mouse: Mouse)
    requires
        !scene.dragging_divider,
        scene.palette is None,
        scene.project_search is None,
        scene.search_box == Some(false),
        scene.goto_line is None,
        !scene.tool_visible,
        !scene.page,
        scene.editor_tab is None,
        scene.editor_under,
    ensures
        mouse.kind == MouseKind::ScrollDown ==> route_of(scene, mouse) == (MouseRoute::Editor {
            focus: false,
        }),
        pressed(mouse.kind) ==> route_of(scene, mouse) == MouseRoute::CloseSearchBox,
{
}

/// The search box and the go to line box close only on a press outside
/// them: moving, dragging, releasing, or the wheel outside an open box
/// goes on to what is under it, as if the box weren't there; a press
/// outside closes the box and goes no further.
pub proof fn only_a_press_outside_closes_a_box(scene: MouseScene, mouse: Mouse)
    requires
        !scene.dragging_divider,
        scene.palette is None,
        scene.project_search is None,
    ensures
        scene.search_box != Some(true) && scene.goto_line != Some(true) && !(mouse.kind is Down)
            ==> route_of(scene, mouse) == route_below(scene, mouse),
        scene.search_box == Some(false) && mouse.kind is Down ==> route_of(scene, mouse)
            == MouseRoute::CloseSearchBox,
        scene.search_box is None && scene.goto_line == Some(false) && mouse.kind is Down
            ==> route_of(scene, mouse) == MouseRoute::CloseGotoLine,
        scene.search_box is None && scene.goto_line == Some(false) && mouse.kind
            == MouseKind::ScrollDown && !scene.tool_visible && !scene.page && scene.editor_tab is None
            && scene.editor_under ==> route_of(scene, mouse) == (MouseRoute::Editor { focus: false }),
{
}

/// What floats over the rest takes the mouse first: a divider being
/// dragged follows drags and ends on the release; an open palette or
/// project search takes what is over it, is closed by a press outside,
/// and lets nothing else through.
pub proof fn what_floats_takes_the_mouse_first(scene: MouseScene, mouse: Mouse)
    ensures
        scene.dragging_divider ==> {
            &&& mouse.kind is Drag ==> route_of(scene, mouse) == MouseRoute::DragDivider
            &&& mouse.kind is Up ==> route_of(scene, mouse) == MouseRoute::EndDividerDrag
            &&& !(mouse.kind is Drag) && !(mouse.kind is Up) ==> route_of(scene, mouse) == MouseRoute::Nothing
        },
        !scene.dragging_divider && scene.palette == Some(true) ==> route_of(scene, mouse)
            == MouseRoute::Palette,
        !scene.dragging_divider && scene.palette == Some(false) ==> route_of(scene, mouse) == (
        if mouse.kind is Down {
            MouseRoute::ClosePalette
        } else {
            MouseRoute::Nothing
        }),
        !scene.dragging_divider && scene.palette is None && scene.project_search == Some(true)
            ==> route_of(scene, mouse) == MouseRoute::ProjectSearch,
        !scene.dragging_divider && scene.palette is None && scene.project_search == Some(false)
            ==> route_of(scene, mouse) == (if mouse.kind is Down {
            MouseRoute::CloseProjectSearch
        } else {
            MouseRoute::Nothing
        }),
        !scene.dragging_divider && scene.palette is None && scene.project_search is None
            && scene.search_box == Some(true) ==> route_of(scene, mouse) == MouseRoute::SearchBox,
        !scene.dragging_divider && scene.palette is None && scene.project_search is None
            && scene.search_box is None && scene.goto_line == Some(true) ==> route_of(scene, mouse)
            == MouseRoute::GotoLine,
{
}

} // verus!
