//! The status bar: on the left a message, or what the keyboard is on
//! (the file's path, a page's keys, a tool); on the right where the
//! cursor is, then the current build configuration and target, each a
//! segment the mouse can click to pick another. The build segments give
//! way when there is no room for them beside the rest.

use crate::geometry::Rect;
use crate::text::{decimal, decimal_text, span_width, span_width_of};
use vstd::prelude::*;

verus! {

/// What the status bar shows while the prefix waits for its key.
pub const PREFIX_HINT: &'static str = "Ctrl+]  then Ctrl+ P commands · E mode · O file · T tab · F search · J line · L log · B build · R run · Q quit · ] itself · drag to copy";

/// What the status bar shows with the output tool focused and idle.
pub const OUTPUT_IDLE_HINT: &'static str = "Ctrl+B build · Ctrl+R run · Ctrl+D dismiss · Ctrl+E mode · Ctrl+P commands";

/// What the status bar shows with no file open.
pub const NO_FILE_HINT: &'static str = "Ctrl+O to open a file, Ctrl+Q to quit";

/// The columns kept free beside the right-hand segments before the
/// build segments give way.
pub const STATUS_SLACK: usize = 20;

/// ` Ln l, Col c `, counting from one.
pub open spec fn position_text(line: nat, column: nat) -> Seq<char> {
    " Ln "@ + decimal_text(line + 1) + ", Col "@ + decimal_text(column + 1) + " "@
}

/// Where the cursor is, for a cursor at `line` and `column`, counted
/// from zero.
pub fn position_segment(line: usize, column: usize) -> (text: String)
    requires
        line < usize::MAX,
        column < usize::MAX,
    ensures
        text@ == position_text(line as nat, column as nat),
{
    let mut text = String::from_str(" Ln ");
    text.append(decimal(line + 1).as_str());
    text.append(", Col ");
    text.append(decimal(column + 1).as_str());
    text.append(" ");
    text
}

/// How far back a tool's output is scrolled, when it is.
pub fn scrollback_segment(back: usize) -> (text: Option<String>)
    ensures
        back == 0 ==> text is None,
        back > 0 ==> (text matches Some(t) && t@ == " scrollback −"@ + decimal_text(back as nat)
            + " "@),
{
    if back == 0 {
        return None;
    }
    let mut text = String::from_str(" scrollback −");
    text.append(decimal(back).as_str());
    text.append(" ");
    Some(text)
}

/// The current configuration's segment: its name with a space each
/// side, or nothing.
pub open spec fn configuration_text(name: Option<Seq<char>>) -> Seq<char> {
    match name {
        Some(n) => " "@ + n + " "@,
        None => Seq::empty(),
    }
}

/// The current configuration's segment.
pub fn configuration_segment(name: Option<&str>) -> (text: String)
    ensures
        text@ == configuration_text(
            match name {
                Some(n) => Some(n@),
                None => None,
            },
        ),
{
    match name {
        Some(n) => {
            let mut text = String::from_str(" ");
            text.append(n);
            text.append(" ");
            text
        },
        None => String::new(),
    }
}

/// The target's segment: `▸` and the name that stands for the target
/// (the one the file had, while the root's targets are still being found,
/// else the current target's), with an ellipsis while they are being
/// found; or only the ellipsis, or nothing, when there is no name.
pub open spec fn target_text(pending: Option<Seq<char>>, current: Option<Seq<char>>, finding: bool) -> Seq<char> {
    let name = match pending {
        Some(n) => Some(n),
        None => current,
    };
    match name {
        Some(n) => if finding {
            "▸ "@ + n + "… "@
        } else {
            "▸ "@ + n + " "@
        },
        None => if finding {
            "▸ … "@
        } else {
            Seq::empty()
        },
    }
}

/// The target's segment.
pub fn target_segment(pending: Option<&str>, current: Option<&str>, finding: bool) -> (text: String)
    ensures
        text@ == target_text(
            match pending {
                Some(n) => Some(n@),
                None => None,
            },
            match current {
                Some(n) => Some(n@),
                None => None,
            },
            finding,
        ),
{
    let name = match pending {
        Some(n) => Some(n),
        None => current,
    };
    match name {
        Some(n) => {
            let mut text = String::from_str("▸ ");
            text.append(n);
            text.append(if finding {
                "… "
            } else {
                " "
            });
            text
        },
        None => if finding {
            String::from_str("▸ … ")
        } else {
            String::new()
        },
    }
}

/// What the keyboard is on, as far as the left of the status bar says.
#[derive(Clone, Copy, Debug, PartialEq, Eq, Structural)]
pub enum Focused {
    /// A file's editor, or the empty page when none is open.
    Editor,
    /// A page in the editor's place.
    Page,
    /// A tool: the output tool with no job running (`idle_output`), or
    /// another, or none.
    Tool { idle_output: bool },
}

/// The left of the status bar: the prefix's keys while it waits, else
/// the message, else what the keyboard is on says: the output tool's
/// keys when it is idle, another tool's title, the page's keys, or the
/// file's path (how to open one, with none open).
pub open spec fn left_text(
    prefix: bool,
    message: Option<Seq<char>>,
    focused: Focused,
    tool_title: Option<Seq<char>>,
    page_hint: Seq<char>,
    path: Option<Seq<char>>,
) -> Seq<char> {
    if prefix {
        PREFIX_HINT@
    } else if message is Some {
        message->0
    } else {
        match focused {
            Focused::Tool { idle_output } => match tool_title {
                Some(title) => if idle_output {
                    OUTPUT_IDLE_HINT@
                } else {
                    title
                },
                None => Seq::empty(),
            },
            Focused::Page => page_hint,
            Focused::Editor => match path {
                Some(p) => p,
                None => NO_FILE_HINT@,
            },
        }
    }
}

/// An optional string's text.
pub open spec fn str_view(text: Option<&str>) -> Option<Seq<char>> {
    match text {
        Some(t) => Some(t@),
        None => None,
    }
}

/// The left of the status bar.
pub fn left_segment(
    prefix: bool,
    message: Option<&str>,
    focused: Focused,
    tool_title: Option<&str>,
    page_hint: &str,
    path: Option<&str>,
) -> (text: String)
    ensures
        text@ == left_text(
            prefix,
            str_view(message),
            focused,
            str_view(tool_title),
            page_hint@,
            str_view(path),
        ),
{
    if prefix {
        return String::from_str(PREFIX_HINT);
    }
    if let Some(m) = message {
        return String::from_str(m);
    }
    match focused {
        Focused::Tool { idle_output } => match tool_title {
            Some(title) => if idle_output {
                String::from_str(OUTPUT_IDLE_HINT)
            } else {
                String::from_str(title)
            },
            None => String::new(),
        },
        Focused::Page => String::from_str(page_hint),
        Focused::Editor => match path {
            Some(p) => String::from_str(p),
            None => String::from_str(NO_FILE_HINT),
        },
    }
}

/// Where the status bar's parts go.
#[derive(Clone, Copy, Debug, PartialEq, Eq, Structural)]
pub struct StatusLayout {
    /// Whether the build segments are shown: they give way when the
    /// right-hand segments and some slack don't fit.
    pub build_shown: bool,
    /// The columns the left text may take, from one column in.
    pub left_width: usize,
    /// Where the right-hand segments start, when they fit.
    pub right_x: Option<u16>,
    /// Where the configuration's segment was drawn, for clicks.
    pub configuration: Rect,
    /// Where the target's segment was drawn, for clicks.
    pub target: Rect,
}

/// The status bar's layout in `area` for right-hand segments of the
/// given widths: the position's, the configuration's, and the target's.
pub open spec fn status_layout_of(area: Rect, position: nat, configuration: nat, target: nat) -> StatusLayout {
    let build_shown = position + configuration + target + STATUS_SLACK <= area.width;
    let c = if build_shown { configuration } else { 0 };
    let t = if build_shown { target } else { 0 };
    let right = position + c + t;
    let left = if right + 1 <= area.width { area.width - (right + 1) } else { 0 };
    if right <= area.width {
        let x = area.right_of() - right;
        StatusLayout {
            build_shown,
            left_width: left as usize,
            right_x: Some(x as u16),
            configuration: Rect::at((x + position) as u16, area.y, c as u16, 1),
            target: Rect::at((x + position + c) as u16, area.y, t as u16, 1),
        }
    } else {
        StatusLayout {
            build_shown,
            left_width: left as usize,
            right_x: None,
            configuration: Rect::zero(),
            target: Rect::zero(),
        }
    }
}

/// Lay the status bar out in `area` for right-hand segments of the given
/// widths.
pub fn status_layout(area: Rect, position: usize, configuration: usize, target: usize) -> (layout: StatusLayout)
    requires
        area.wf(),
    ensures
        layout == status_layout_of(area, position as nat, configuration as nat, target as nat),
{
    let width = area.width as usize;
    let build_shown = position <= width && configuration <= width && target <= width && position
        + configuration + target + STATUS_SLACK <= width;
    let c = if build_shown { configuration } else { 0 };
    let t = if build_shown { target } else { 0 };
    if position > width {
        return StatusLayout {
            build_shown,
            left_width: 0,
            right_x: None,
            configuration: Rect { x: 0, y: 0, width: 0, height: 0 },
            target: Rect { x: 0, y: 0, width: 0, height: 0 },
        };
    }
    let right = position + c + t;
    let left = if right + 1 <= width { width - (right + 1) } else { 0 };
    if right <= width {
        let x = area.right() - right as u16;
        StatusLayout {
            build_shown,
            left_width: left,
            right_x: Some(x),
            configuration: Rect::new(x + position as u16, area.y, c as u16, 1),
            target: Rect::new(x + position as u16 + c as u16, area.y, t as u16, 1),
        }
    } else {
        StatusLayout {
            build_shown,
            left_width: left,
            right_x: None,
            configuration: Rect { x: 0, y: 0, width: 0, height: 0 },
            target: Rect { x: 0, y: 0, width: 0, height: 0 },
        }
    }
}

/// The status bar's layout for its right-hand texts, measured as the
/// terminal library measures them.
pub fn lay_out_status(area: Rect, position: &str, configuration: &str, target: &str) -> (layout: StatusLayout)
    requires
        area.wf(),
    ensures
        layout == status_layout_of(
            area,
            span_width_of(position@),
            span_width_of(configuration@),
            span_width_of(target@),
        ),
{
    let p = span_width(position);
    let c = span_width(configuration);
    let t = span_width(target);
    status_layout(area, p, c, t)
}

/// The build segments are shown only when they fit with the slack, and
/// then the segments sit end to end, the target's reaching the bar's
/// right edge.
pub proof fn the_segments_end_at_the_right_edge(area: Rect, position: nat, configuration: nat, target: nat)
    requires
        area.wf(),
        position + configuration + target + STATUS_SLACK <= area.width,
    ensures
        ({
            let layout = status_layout_of(area, position, configuration, target);
            &&& layout.build_shown
            &&& layout.right_x is Some
            &&& layout.configuration.x == layout.right_x->0 + position
            &&& layout.target.x == layout.configuration.x + configuration
            &&& layout.target.x + target == area.x + area.width
        }),
{
}

} // verus!
