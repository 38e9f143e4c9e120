//! The build configuration page around its tree: how the page is split
//! between the tree and the options, what the options pane lists for
//! the selected row, how the panes scroll, and what keys and the mouse
//! do.

use crate::build_view::{BuildOutcome, Node};
use crate::geometry::Rect;
use crate::input::{Key, KeyCode, Mouse, MouseButton, MouseKind};
use vstd::prelude::*;

verus! {

/// The name of the page, shown in its tab.
pub const TITLE: &'static str = "Build Configuration";

/// The tree pane's width, within these bounds, as a share of the page.
pub const MIN_TREE_WIDTH: u16 = 22;
pub const MAX_TREE_WIDTH: u16 = 40;

/// How far the options pane's content is indented from its edge.
pub const INDENT: u16 = 2;

/// The widest a field gets.
pub const MAX_FIELD_WIDTH: u16 = 76;

/// Rows scrolled per mouse wheel notch.
pub const WHEEL_LINES: usize = 3;

/// The note under the Targets heading of a root whose targets are still
/// being found.
pub const FINDING_NOTE: &'static str = "The project is still being looked through; the targets found will appear here";

/// The page's panes: the tree, and past a rule the options.
#[derive(Clone, Copy, Debug, PartialEq, Eq, Structural)]
pub struct PagePanes {
    pub tree: Rect,
    pub options: Rect,
}

/// The tree's width for a page `width` columns wide: a third, within
/// bounds.
pub open spec fn tree_width_for(width: int) -> int {
    let third = width / 3;
    if third < MIN_TREE_WIDTH {
        MIN_TREE_WIDTH as int
    } else if third > MAX_TREE_WIDTH {
        MAX_TREE_WIDTH as int
    } else {
        third
    }
}

/// The page's panes in `area`: none on a page with no rows or narrower
/// than the tree's least width; all tree on a page too narrow for the
/// options beside it; else the tree's width, a rule, and the rest.
pub open spec fn page_panes_of(area: Rect) -> PagePanes {
    if area.height == 0 || area.width < MIN_TREE_WIDTH {
        PagePanes { tree: Rect::zero(), options: Rect::zero() }
    } else {
        let tree = tree_width_for(area.width as int);
        if area.width < tree + 1 + INDENT * 2 + 8 {
            PagePanes {
                tree: Rect::at(area.x, area.y, area.width, area.height),
                options: Rect::at((area.x + area.width + 1) as u16, area.y, 0, area.height),
            }
        } else {
            PagePanes {
                tree: Rect::at(area.x, area.y, tree as u16, area.height),
                options: Rect::at(
                    (area.x + tree + 1) as u16,
                    area.y,
                    (area.width - tree - 1) as u16,
                    area.height,
                ),
            }
        }
    }
}

/// Split the page into its panes.
pub fn page_panes(area: Rect) -> (panes: PagePanes)
    requires
        area.wf(),
        area.x + area.width + 1 <= u16::MAX,
    ensures
        panes == page_panes_of(area),
{
    if area.height == 0 || area.width < MIN_TREE_WIDTH {
        return PagePanes {
            tree: Rect { x: 0, y: 0, width: 0, height: 0 },
            options: Rect { x: 0, y: 0, width: 0, height: 0 },
        };
    }
    let third = area.width / 3;
    let tree = if third < MIN_TREE_WIDTH {
        MIN_TREE_WIDTH
    } else if third > MAX_TREE_WIDTH {
        MAX_TREE_WIDTH
    } else {
        third
    };
    let (tree_width, options_width) = if area.width < tree + 1 + INDENT * 2 + 8 {
        (area.width, 0)
    } else {
        (tree, area.width - tree - 1)
    };
    PagePanes {
        tree: Rect::new(area.x, area.y, tree_width, area.height),
        options: Rect::new(area.x + tree_width + 1, area.y, options_width, area.height),
    }
}

/// A list's first row: no further than needed to show the last row, and,
/// when `reveal` asks for it, as far as needed to show the rows from
/// `first` to `last`, `first` first when they don't all fit.
pub open spec fn settled_scroll(scroll: int, rows: int, height: int, reveal: Option<(int, int)>) -> int {
    let most = if rows > height { rows - height } else { 0 };
    let kept = if scroll < most { scroll } else { most };
    match reveal {
        Some((first, last)) => if first < kept {
            first
        } else if last >= kept + height {
            last + 1 - height
        } else {
            kept
        },
        None => kept,
    }
}

/// A list's first row after a render: see [`settled_scroll`].
pub fn settle_scroll(scroll: usize, rows: usize, height: usize, reveal: Option<(usize, usize)>) -> (first: usize)
    requires
        reveal matches Some((first, last)) ==> first <= last < usize::MAX,
    ensures
        first == settled_scroll(
            scroll as int,
            rows as int,
            height as int,
            match reveal {
                Some((f, l)) => Some((f as int, l as int)),
                None => None,
            },
        ),
{
    let most = rows.saturating_sub(height);
    let kept = if scroll < most { scroll } else { most };
    match reveal {
        Some((first, last)) => if first < kept {
            first
        } else if last - kept >= height {
            last + 1 - height
        } else {
            kept
        },
        None => kept,
    }
}

/// A revealed row is on screen after the scroll settles, and so is a
/// revealed span that fits.
pub proof fn a_revealed_row_is_shown(scroll: int, rows: int, height: int, first: int, last: int)
    requires
        0 <= scroll,
        0 <= first <= last < rows,
        last - first < height,
    ensures
        settled_scroll(scroll, rows, height, Some((first, last))) <= first,
        last < settled_scroll(scroll, rows, height, Some((first, last))) + height,
{
}

/// How far a page key moves in a pane `height` rows tall: a screenful
/// less a row, and at least one.
pub open spec fn page_rows(height: nat) -> nat {
    if height > 2 { (height - 1) as nat } else { 1 }
}

/// How far a page key moves in a pane `height` rows tall.
pub fn page_of(height: u16) -> (rows: usize)
    ensures
        rows == page_rows(height as nat),
{
    let rows = (height as usize).saturating_sub(1);
    if rows > 1 {
        rows
    } else {
        1
    }
}

/// Where the `current` tag goes after a tree row's label, which starts
/// at `x` with `available` columns for it and takes `label` of them
/// (or all of them, when longer): two columns on, if that is before the
/// pane's `right` edge.
pub open spec fn tag_column(x: int, label: int, available: int, right: int) -> Option<int> {
    let used = if label < available { label } else { available };
    let at = x + used + 2;
    if at < right { Some(at) } else { None }
}

/// Where the `current` tag goes after a tree row's label.
pub fn tag_x(x: u16, label: usize, available: usize, right: u16) -> (at: Option<u16>)
    ensures
        match at {
            Some(a) => tag_column(x as int, label as int, available as int, right as int) == Some(
                a as int,
            ),
            None => tag_column(x as int, label as int, available as int, right as int) is None,
        },
{
    let used = if label < available { label } else { available };
    if used >= right as usize || (x as usize) + used + 2 >= right as usize {
        return None;
    }
    Some(x + used as u16 + 2)
}

/// One entry of the options pane, before it is wrapped to the pane's
/// width.
#[derive(Clone, Debug, PartialEq, Eq)]
pub enum Line {
    Blank,
    Heading(String),
    Text(String),
    /// The name of the field at this index.
    Name(usize),
    Field(usize),
    /// The field's description, or the reason its text was refused.
    Note(usize),
}

/// An entry of the options pane as text.
pub enum LineText {
    Blank,
    Heading(Seq<char>),
    Text(Seq<char>),
    Name(usize),
    Field(usize),
    Note(usize),
}

/// An entry as text.
pub open spec fn line_text(line: Line) -> LineText {
    match line {
        Line::Blank => LineText::Blank,
        Line::Heading(t) => LineText::Heading(t@),
        Line::Text(t) => LineText::Text(t@),
        Line::Name(i) => LineText::Name(i),
        Line::Field(i) => LineText::Field(i),
        Line::Note(i) => LineText::Note(i),
    }
}

/// The entries as text.
pub open spec fn lines_text(lines: Seq<Line>) -> Seq<LineText> {
    lines.map_values(|l: Line| line_text(l))
}

/// What the page knows of the selected row's root, for the options
/// pane: its build system's name (none for a row whose root is gone),
/// its label, whether its targets are still being found; for a target,
/// whether it is disabled and how the project names it, when it was
/// found there.
pub struct RowFacts<'a> {
    pub system: Option<&'a str>,
    pub root_label: &'a str,
    pub pending: bool,
    pub disabled: bool,
    pub found_as: Option<&'a str>,
}

/// The entries above the fields for a row: a configuration's or a
/// target's heading (a found target saying so, and what Delete does to
/// it), a root's label and what can be done with it, or what a list
/// heading's list is.
pub open spec fn header_lines(
    node: Node,
    system: Option<Seq<char>>,
    label: Seq<char>,
    pending: bool,
    disabled: bool,
    found_as: Option<Seq<char>>,
) -> Seq<LineText> {
    match node {
        Node::Configuration(..) => match system {
            Some(s) => seq![LineText::Heading(s + " configuration"@), LineText::Blank],
            None => Seq::empty(),
        },
        Node::Target(..) => match system {
            Some(s) => {
                let heading = LineText::Heading(
                    s + " target"@ + (if disabled { " (disabled)"@ } else { Seq::empty() }),
                );
                match found_as {
                    Some(found) => seq![
                        heading,
                        LineText::Blank,
                        LineText::Text(
                            "Found in "@ + label + " as "@ + found
                                + ", so it follows the project and can't be removed"@,
                        ),
                        LineText::Text(
                            if disabled {
                                "Disabled: not built until Delete enables it again"@
                            } else {
                                "Delete disables it"@
                            },
                        ),
                        LineText::Blank,
                    ],
                    None => seq![heading, LineText::Blank],
                }
            },
            None => Seq::empty(),
        },
        Node::Root(..) => match system {
            Some(s) => seq![
                LineText::Heading(s + " root"@),
                LineText::Blank,
                LineText::Text(label),
                LineText::Blank,
                LineText::Text("Ctrl+N adds another root"@),
                LineText::Text("Delete removes this one"@),
            ],
            None => Seq::empty(),
        },
        Node::Configurations(..) => seq![
            LineText::Heading("Configurations"@),
            LineText::Blank,
            LineText::Text(
                "The ways of building this root; the current one is what Ctrl+B and Ctrl+R use"@,
            ),
            LineText::Blank,
            LineText::Text("Ctrl+N adds a configuration"@),
        ],
        Node::Targets(..) => seq![
            LineText::Heading("Targets"@),
            LineText::Blank,
            LineText::Text(
                "What this root builds and runs; the current one is what Ctrl+B and Ctrl+R use"@,
            ),
        ] + (if pending {
            seq![LineText::Blank, LineText::Text(FINDING_NOTE@)]
        } else {
            Seq::empty()
        }) + seq![LineText::Blank, LineText::Text("Ctrl+N adds a target"@)],
    }
}

/// For each of `count` fields: its name, the field, its note, a blank.
pub open spec fn field_lines(count: nat) -> Seq<LineText>
    decreases count,
{
    if count == 0 {
        Seq::empty()
    } else {
        let i = (count - 1) as usize;
        field_lines((count - 1) as nat) + seq![
            LineText::Name(i),
            LineText::Field(i),
            LineText::Note(i),
            LineText::Blank,
        ]
    }
}

/// The options pane's entries for a row with `fields` fields.
pub fn options_lines(node: Node, facts: &RowFacts, fields: usize) -> (lines: Vec<Line>)
    ensures
        lines_text(lines@) == header_lines(
            node,
            match facts.system {
                Some(s) => Some(s@),
                None => None,
            },
            facts.root_label@,
            facts.pending,
            facts.disabled,
            match facts.found_as {
                Some(f) => Some(f@),
                None => None,
            },
        ) + field_lines(fields as nat),
{
    let mut lines: Vec<Line> = Vec::new();
    match node {
        Node::Configuration(..) => {
            if let Some(s) = facts.system {
                lines.push(Line::Heading(String::from_str(s).concat(" configuration")));
                lines.push(Line::Blank);
            }
        },
        Node::Target(..) => {
            if let Some(s) = facts.system {
                let mut heading = String::from_str(s);
                heading.append(" target");
                if facts.disabled {
                    heading.append(" (disabled)");
                }
                lines.push(Line::Heading(heading));
                lines.push(Line::Blank);
                if let Some(found) = facts.found_as {
                    let mut text = String::from_str("Found in ");
                    text.append(facts.root_label);
                    text.append(" as ");
                    text.append(found);
                    text.append(", so it follows the project and can't be removed");
                    lines.push(Line::Text(text));
                    lines.push(
                        Line::Text(
                            String::from_str(
                                if facts.disabled {
                                    "Disabled: not built until Delete enables it again"
                                } else {
                                    "Delete disables it"
                                },
                            ),
                        ),
                    );
                    lines.push(Line::Blank);
                }
            }
        },
        Node::Root(..) => {
            if let Some(s) = facts.system {
                lines.push(Line::Heading(String::from_str(s).concat(" root")));
                lines.push(Line::Blank);
                lines.push(Line::Text(String::from_str(facts.root_label)));
                lines.push(Line::Blank);
                lines.push(Line::Text(String::from_str("Ctrl+N adds another root")));
                lines.push(Line::Text(String::from_str("Delete removes this one")));
            }
        },
        Node::Configurations(..) => {
            lines.push(Line::Heading(String::from_str("Configurations")));
            lines.push(Line::Blank);
            lines.push(
                Line::Text(
                    String::from_str(
                        "The ways of building this root; the current one is what Ctrl+B and Ctrl+R use",
                    ),
                ),
            );
            lines.push(Line::Blank);
            lines.push(Line::Text(String::from_str("Ctrl+N adds a configuration")));
        },
        Node::Targets(..) => {
            lines.push(Line::Heading(String::from_str("Targets")));
            lines.push(Line::Blank);
            lines.push(
                Line::Text(
                    String::from_str(
                        "What this root builds and runs; the current one is what Ctrl+B and Ctrl+R use",
                    ),
                ),
            );
            if facts.pending {
                lines.push(Line::Blank);
                lines.push(Line::Text(String::from_str(FINDING_NOTE)));
            }
            lines.push(Line::Blank);
            lines.push(Line::Text(String::from_str("Ctrl+N adds a target")));
        },
    }
    let ghost header = lines_text(lines@);
    proof {
        assert(header =~= header_lines(
            node,
            match facts.system {
                Some(s) => Some(s@),
                None => None,
            },
            facts.root_label@,
            facts.pending,
            facts.disabled,
            match facts.found_as {
                Some(f) => Some(f@),
                None => None,
            },
        ));
    }
    let mut i: usize = 0;
    while i < fields
        invariant
            i <= fields,
            lines_text(lines@) == header + field_lines(i as nat),
        decreases fields - i,
    {
        let ghost before = lines_text(lines@);
        lines.push(Line::Name(i));
        lines.push(Line::Field(i));
        lines.push(Line::Note(i));
        lines.push(Line::Blank);
        proof {
            assert(lines_text(lines@) =~= before + seq![
                LineText::Name(i),
                LineText::Field(i),
                LineText::Note(i),
                LineText::Blank,
            ]);
            assert(field_lines((i + 1) as nat) =~= field_lines(i as nat) + seq![
                LineText::Name(i),
                LineText::Field(i),
                LineText::Note(i),
                LineText::Blank,
            ]);
            assert(lines_text(lines@) =~= header + field_lines((i + 1) as nat));
        }
        i = i + 1;
    }
    lines
}

/// Which pane of the page has the keyboard.
#[derive(Clone, Copy, Debug, PartialEq, Eq, Structural)]
pub enum BuildPane {
    Tree,
    Options,
}

/// What a key does on the page.
#[derive(Clone, Copy, Debug, PartialEq, Eq, Structural)]
pub enum BuildKey {
    Nothing,
    /// Ctrl+N: add to the list the selection is in.
    Add,
    /// Ctrl+D: duplicate the selected configuration or target.
    Duplicate,
    /// Ctrl+S: apply every field.
    CommitAll,
    /// Delete in the tree: remove the selected row, on the second press.
    Remove,
    /// Move the tree's selection to this row (or the last).
    Select(usize),
    /// Move the keyboard to the options.
    FocusOptions,
    /// Apply the focused field.
    Commit,
    /// Put the focused field's text back.
    Revert,
    /// Apply the first field and go back to the tree.
    LeaveOptions,
    /// Scroll the options to this first row.
    ScrollOptions(usize),
    /// The focused field takes the key.
    Field,
}

/// What a key does, with the tree's selection at `selected`, the focused
/// field the first when `first_field`, the options scrolled to
/// `scroll`, and pages of `tree_page` and `options_page` rows.
pub open spec fn build_key_of(
    pane: BuildPane,
    key: Key,
    selected: nat,
    first_field: bool,
    scroll: nat,
    tree_page: nat,
    options_page: nat,
) -> BuildKey {
    let max = usize::MAX as nat;
    if key.ctrl && key.code == KeyCode::Char('n') {
        BuildKey::Add
    } else if key.ctrl && key.code == KeyCode::Char('d') {
        BuildKey::Duplicate
    } else if key.ctrl && key.code == KeyCode::Char('s') {
        BuildKey::CommitAll
    } else {
        match pane {
            BuildPane::Tree => match key.code {
                KeyCode::Delete | KeyCode::Backspace => BuildKey::Remove,
                KeyCode::Up => BuildKey::Select(if selected > 0 { (selected - 1) as usize } else { 0 }),
                KeyCode::Down => BuildKey::Select(
                    if selected + 1 <= max { (selected + 1) as usize } else { usize::MAX },
                ),
                KeyCode::Home => BuildKey::Select(0),
                KeyCode::End => BuildKey::Select(usize::MAX),
                KeyCode::PageUp => BuildKey::Select(
                    if selected > tree_page { (selected - tree_page) as usize } else { 0 },
                ),
                KeyCode::PageDown => BuildKey::Select(
                    if selected + tree_page <= max { (selected + tree_page) as usize } else { usize::MAX },
                ),
                KeyCode::Enter | KeyCode::Right | KeyCode::Tab => BuildKey::FocusOptions,
                _ => BuildKey::Nothing,
            },
            BuildPane::Options => match key.code {
                KeyCode::Enter => BuildKey::Commit,
                KeyCode::Esc => BuildKey::Revert,
                KeyCode::Up | KeyCode::BackTab => if first_field {
                    BuildKey::LeaveOptions
                } else {
                    BuildKey::Field
                },
                KeyCode::PageUp => BuildKey::ScrollOptions(
                    if scroll > options_page { (scroll - options_page) as usize } else { 0 },
                ),
                KeyCode::PageDown => BuildKey::ScrollOptions(
                    if scroll + options_page <= max { (scroll + options_page) as usize } else { usize::MAX },
                ),
                _ => BuildKey::Field,
            },
        }
    }
}

/// What a key does on the page.
pub fn build_key(
    pane: BuildPane,
    key: Key,
    selected: usize,
    first_field: bool,
    scroll: usize,
    tree_page: usize,
    options_page: usize,
) -> (action: BuildKey)
    ensures
        action == build_key_of(
            pane,
            key,
            selected as nat,
            first_field,
            scroll as nat,
            tree_page as nat,
            options_page as nat,
        ),
{
    if key.ctrl {
        match key.code {
            KeyCode::Char(c) => {
                if c == 'n' {
                    return BuildKey::Add;
                } else if c == 'd' {
                    return BuildKey::Duplicate;
                } else if c == 's' {
                    return BuildKey::CommitAll;
                }
            },
            _ => {},
        }
    }
    match pane {
        BuildPane::Tree => match key.code {
            KeyCode::Delete | KeyCode::Backspace => BuildKey::Remove,
            KeyCode::Up => BuildKey::Select(selected.saturating_sub(1)),
            KeyCode::Down => BuildKey::Select(selected.saturating_add(1)),
            KeyCode::Home => BuildKey::Select(0),
            KeyCode::End => BuildKey::Select(usize::MAX),
            KeyCode::PageUp => BuildKey::Select(selected.saturating_sub(tree_page)),
            KeyCode::PageDown => BuildKey::Select(selected.saturating_add(tree_page)),
            KeyCode::Enter | KeyCode::Right | KeyCode::Tab => BuildKey::FocusOptions,
            _ => BuildKey::Nothing,
        },
        BuildPane::Options => match key.code {
            KeyCode::Enter => BuildKey::Commit,
            KeyCode::Esc => BuildKey::Revert,
            KeyCode::Up | KeyCode::BackTab => if first_field {
                BuildKey::LeaveOptions
            } else {
                BuildKey::Field
            },
            KeyCode::PageUp => BuildKey::ScrollOptions(scroll.saturating_sub(options_page)),
            KeyCode::PageDown => BuildKey::ScrollOptions(scroll.saturating_add(options_page)),
            _ => BuildKey::Field,
        },
    }
}

/// What the mouse does on the page.
#[derive(Clone, Copy, Debug, PartialEq, Eq, Structural)]
pub enum BuildMouse {
    /// Scroll the tree to this first row.
    ScrollTree(usize),
    /// Scroll the options to this first row.
    ScrollOptions(usize),
    /// Select the tree's row at this index, giving the tree the keyboard.
    SelectRow(usize),
    /// A press in the tree past its rows: a pending removal lapses.
    TreeMiss,
    /// The fields take the action.
    Fields,
}

/// What the mouse does on the page: the wheel scrolls the pane it is
/// over (the options anywhere but the tree); a left press in the tree
/// selects the row under it; anything else goes to the fields.
pub open spec fn build_mouse_of(tree: Rect, tree_scroll: nat, rows: nat, options_scroll: nat, mouse: Mouse) -> BuildMouse {
    let in_tree = tree.holds(mouse.column as int, mouse.row as int);
    let max = usize::MAX as nat;
    match mouse.kind {
        MouseKind::ScrollUp => if in_tree {
            BuildMouse::ScrollTree(if tree_scroll > WHEEL_LINES { (tree_scroll - WHEEL_LINES) as usize } else { 0 })
        } else {
            BuildMouse::ScrollOptions(
                if options_scroll > WHEEL_LINES { (options_scroll - WHEEL_LINES) as usize } else { 0 },
            )
        },
        MouseKind::ScrollDown => if in_tree {
            BuildMouse::ScrollTree(
                if tree_scroll + WHEEL_LINES <= max { (tree_scroll + WHEEL_LINES) as usize } else { usize::MAX },
            )
        } else {
            BuildMouse::ScrollOptions(
                if options_scroll + WHEEL_LINES <= max { (options_scroll + WHEEL_LINES) as usize } else { usize::MAX },
            )
        },
        MouseKind::Down(MouseButton::Left) => if in_tree {
            let row = tree_scroll + (mouse.row - tree.y);
            if row < rows {
                BuildMouse::SelectRow(row as usize)
            } else {
                BuildMouse::TreeMiss
            }
        } else {
            BuildMouse::Fields
        },
        _ => BuildMouse::Fields,
    }
}

/// What the mouse does on the page.
pub fn build_mouse(tree: Rect, tree_scroll: usize, rows: usize, options_scroll: usize, mouse: Mouse) -> (action: BuildMouse)
    ensures
        action == build_mouse_of(tree, tree_scroll as nat, rows as nat, options_scroll as nat, mouse),
{
    let in_tree = tree.contains(mouse.column, mouse.row);
    match mouse.kind {
        MouseKind::ScrollUp => if in_tree {
            BuildMouse::ScrollTree(tree_scroll.saturating_sub(WHEEL_LINES))
        } else {
            BuildMouse::ScrollOptions(options_scroll.saturating_sub(WHEEL_LINES))
        },
        MouseKind::ScrollDown => if in_tree {
            BuildMouse::ScrollTree(tree_scroll.saturating_add(WHEEL_LINES))
        } else {
            BuildMouse::ScrollOptions(options_scroll.saturating_add(WHEEL_LINES))
        },
        MouseKind::Down(MouseButton::Left) => if in_tree {
            let offset = (mouse.row - tree.y) as usize;
            if tree_scroll < rows && offset < rows - tree_scroll {
                BuildMouse::SelectRow(tree_scroll + offset)
            } else {
                BuildMouse::TreeMiss
            }
        } else {
            BuildMouse::Fields
        },
        _ => BuildMouse::Fields,
    }
}

/// What Ctrl+N adds, by the selected row.
#[derive(Clone, Copy, Debug, PartialEq, Eq, Structural)]
pub enum AddTo {
    /// A root, which the application asks for: a root is selected, or
    /// there are no rows at all.
    Roots,
    /// A configuration of this root.
    Configurations(usize),
    /// A target of this root.
    Targets(usize),
}

/// What Ctrl+N adds with `selected` the selected row.
pub fn add_to(selected: Option<Node>) -> (to: AddTo)
    ensures
        to == match selected {
            None | Some(Node::Root(_)) => AddTo::Roots,
            Some(Node::Configurations(r)) | Some(Node::Configuration(r, _)) => AddTo::Configurations(r),
            Some(Node::Targets(r)) | Some(Node::Target(r, _)) => AddTo::Targets(r),
        },
{
    match selected {
        None | Some(Node::Root(_)) => AddTo::Roots,
        Some(Node::Configurations(r)) | Some(Node::Configuration(r, _)) => AddTo::Configurations(r),
        Some(Node::Targets(r)) | Some(Node::Target(r, _)) => AddTo::Targets(r),
    }
}

/// What Ctrl+D on a row that isn't a configuration or a target says.
pub fn nothing_to_duplicate() -> (outcome: BuildOutcome)
    ensures
        outcome matches BuildOutcome::Notice(text) && text@
            == "Select a configuration or a target to duplicate"@,
{
    BuildOutcome::Notice(String::from_str("Select a configuration or a target to duplicate"))
}

/// What a row is called when Delete asks to confirm its removal; none
/// for a list heading, which can't be removed.
pub open spec fn removal_noun(node: Node) -> Option<Seq<char>> {
    match node {
        Node::Root(_) => Some("root"@),
        Node::Configuration(..) => Some("configuration"@),
        Node::Target(..) => Some("target"@),
        _ => None,
    }
}

/// What Delete says on `node`, labelled `label`: on a heading, what can
/// be removed; else that another press removes it.
pub fn removal_notice(node: Node, label: &str) -> (outcome: BuildOutcome)
    ensures
        outcome matches BuildOutcome::Notice(text) && text@ == match removal_noun(node) {
            Some(noun) => "Press Delete again to remove the "@ + noun + " "@ + label@,
            None => "Select a root, a configuration, or a target to remove"@,
        },
{
    let noun = match node {
        Node::Root(_) => "root",
        Node::Configuration(..) => "configuration",
        Node::Target(..) => "target",
        _ => {
            return BuildOutcome::Notice(
                String::from_str("Select a root, a configuration, or a target to remove"),
            );
        },
    };
    let mut text = String::from_str("Press Delete again to remove the ");
    text.append(noun);
    text.append(" ");
    text.append(label);
    BuildOutcome::Notice(text)
}

/// A tree row's label: a root's label, a heading (the targets' saying
/// they are still being found), or an entry's name.
pub open spec fn node_label_text(node: Node, root_label: Seq<char>, pending: bool, name: Seq<char>) -> Seq<char> {
    match node {
        Node::Root(_) => root_label,
        Node::Configurations(_) => "Configurations"@,
        Node::Targets(_) => if pending {
            "Targets (finding…)"@
        } else {
            "Targets"@
        },
        Node::Configuration(..) | Node::Target(..) => name,
    }
}

/// A tree row's label, its root labelled `root_label` and its targets
/// still being found when `pending`, `name` being an entry's name.
pub fn node_label(node: Node, root_label: &str, pending: bool, name: &str) -> (label: String)
    ensures
        label@ == node_label_text(node, root_label@, pending, name@),
{
    match node {
        Node::Root(_) => String::from_str(root_label),
        Node::Configurations(_) => String::from_str("Configurations"),
        Node::Targets(_) => if pending {
            String::from_str("Targets (finding…)")
        } else {
            String::from_str("Targets")
        },
        Node::Configuration(..) | Node::Target(..) => String::from_str(name),
    }
}

/// The current selection: a root, and its configuration and target.
#[derive(Clone, Copy, Debug, PartialEq, Eq, Structural)]
pub struct Current {
    pub root: usize,
    pub configuration: usize,
    pub target: usize,
}

/// Whether a row is the current configuration or target, which the tree
/// tags.
pub fn is_current(node: Node, current: Option<Current>) -> (tagged: bool)
    ensures
        tagged == match current {
            Some(c) => match node {
                Node::Configuration(r, i) => c.root == r && c.configuration == i,
                Node::Target(r, i) => c.root == r && c.target == i,
                _ => false,
            },
            None => false,
        },
{
    match current {
        Some(c) => match node {
            Node::Configuration(r, i) => c.root == r && c.configuration == i,
            Node::Target(r, i) => c.root == r && c.target == i,
            _ => false,
        },
        None => false,
    }
}

} // verus!
