//! How the screen is shared out, top to bottom: the tab bar, the content
//! (the editor, or the mode standing in for it, and when it is showing
//! the tool pane below it, split by a draggable divider), and the status
//! bar.

use crate::geometry::Rect;
use vstd::prelude::*;

verus! {

/// The height of the bar dragged to resize the editor/tool split.
pub const DIVIDER_HEIGHT: u16 = 1;

/// The screen's three bands.
#[derive(Clone, Copy, Debug, PartialEq, Eq, Structural)]
pub struct ScreenLayout {
    /// The top row: the tab bar.
    pub tabs: Rect,
    /// Between the bars: the editor and the tool pane.
    pub content: Rect,
    /// The bottom row: the status bar.
    pub status: Rect,
}

/// The bands of `screen`, or none on a screen under two rows tall.
pub open spec fn screen_layout_of(screen: Rect) -> Option<ScreenLayout> {
    if screen.height < 2 {
        None
    } else {
        Some(
            ScreenLayout {
                tabs: Rect::at(screen.x, screen.y, screen.width, 1),
                content: Rect::at(
                    screen.x,
                    (screen.y + 1) as u16,
                    screen.width,
                    (screen.height - 2) as u16,
                ),
                status: Rect::at(screen.x, (screen.bottom_of() - 1) as u16, screen.width, 1),
            },
        )
    }
}

/// Share the screen out among the tab bar, the content, and the status
/// bar; none when it is under two rows tall.
pub fn screen_layout(screen: Rect) -> (layout: Option<ScreenLayout>)
    requires
        screen.wf(),
    ensures
        layout == screen_layout_of(screen),
{
    if screen.height < 2 {
        return None;
    }
    let tabs = Rect::new(screen.x, screen.y, screen.width, 1);
    let status = Rect::new(screen.x, screen.bottom() - 1, screen.width, 1);
    let content = Rect::new(screen.x, screen.y + 1, screen.width, screen.height - 2);
    Some(ScreenLayout { tabs, content, status })
}

/// Where the content's parts go: the editor, the divider, and the tool's
/// terminal (under the divider and the tool tab bar's row).
#[derive(Clone, Copy, Debug, PartialEq, Eq, Structural)]
pub struct ContentLayout {
    pub editor: Rect,
    pub divider: Rect,
    pub tool_term: Rect,
}

/// `value` within `low..=high`, for `low <= high`.
pub open spec fn clamped_to(value: int, low: int, high: int) -> int {
    if value < low {
        low
    } else if value > high {
        high
    } else {
        value
    }
}

/// The content's parts: with the tool pane showing, and room for it (a
/// tab row and a terminal row, the divider, and an editor row), the tool
/// gets the rows it wants, within what leaves each part those; else the
/// editor takes it all.
pub open spec fn content_layout_of(content: Rect, tool_visible: bool, wanted: u16) -> ContentLayout {
    if !tool_visible || content.height < 4 {
        ContentLayout { editor: content, divider: Rect::zero(), tool_term: Rect::zero() }
    } else {
        let total = content.height as int;
        let tool_rows = clamped_to(wanted as int, 2, total - 2);
        let editor_height = total - DIVIDER_HEIGHT - tool_rows;
        let tool_top = content.y + editor_height + DIVIDER_HEIGHT;
        ContentLayout {
            editor: Rect::at(content.x, content.y, content.width, editor_height as u16),
            divider: Rect::at(
                content.x,
                (content.y + editor_height) as u16,
                content.width,
                DIVIDER_HEIGHT,
            ),
            tool_term: Rect::at(
                content.x,
                (tool_top + 1) as u16,
                content.width,
                (tool_rows - 1) as u16,
            ),
        }
    }
}

/// Place the editor and the tool pane within `content`, the tool pane
/// wanting `wanted` rows (its share of the content's height).
pub fn layout_content(content: Rect, tool_visible: bool, wanted: u16) -> (layout: ContentLayout)
    requires
        content.wf(),
    ensures
        layout == content_layout_of(content, tool_visible, wanted),
{
    if !tool_visible || content.height < 4 {
        return ContentLayout {
            editor: content,
            divider: Rect { x: 0, y: 0, width: 0, height: 0 },
            tool_term: Rect { x: 0, y: 0, width: 0, height: 0 },
        };
    }
    let total = content.height;
    let tool_rows = if wanted < 2 {
        2
    } else if wanted > total - 2 {
        total - 2
    } else {
        wanted
    };
    let editor_height = total - DIVIDER_HEIGHT - tool_rows;
    let editor = Rect::new(content.x, content.y, content.width, editor_height);
    let divider = Rect::new(content.x, content.y + editor_height, content.width, DIVIDER_HEIGHT);
    let tool_top = content.y + editor_height + DIVIDER_HEIGHT;
    let tool_term = Rect::new(content.x, tool_top + 1, content.width, tool_rows - 1);
    ContentLayout { editor, divider, tool_term }
}

/// The rows the tool pane gets when the divider is dragged to screen row
/// `y`: those below it, the row kept within the content.
pub open spec fn rows_below(content: Rect, y: u16) -> int {
    content.bottom_of() - clamped_to(y as int, content.y as int, content.bottom_of())
}

/// The rows the tool pane gets for the divider dragged to row `y`, or
/// none when there is no content to split.
pub fn split_rows(content: Rect, y: u16) -> (rows: Option<u16>)
    ensures
        content.height == 0 ==> rows is None,
        content.height > 0 ==> rows == Some(rows_below(content, y) as u16),
{
    if content.height == 0 {
        return None;
    }
    let bottom = content.bottom();
    let y = if y < content.y {
        content.y
    } else if y > bottom {
        bottom
    } else {
        y
    };
    Some(bottom - y)
}

/// With the tool pane showing and room for it, the content's parts sit
/// one under the other with nothing between them and nothing left over,
/// and each gets at least a row.
pub proof fn the_split_fills_the_content(content: Rect, wanted: u16)
    requires
        content.wf(),
        content.height >= 4,
    ensures
        ({
            let layout = content_layout_of(content, true, wanted);
            &&& layout.editor.y == content.y
            &&& layout.divider.y == layout.editor.y + layout.editor.height
            &&& layout.tool_term.y == layout.divider.bottom_of() + 1
            &&& layout.tool_term.bottom_of() == content.bottom_of()
            &&& layout.editor.height >= 1
            &&& layout.tool_term.height >= 1
        }),
{
}

} // verus!
