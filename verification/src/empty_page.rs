//! The page shown where the editor would be when no file is open: the
//! editor's name, where it was started (the project, or the directory
//! when there isn't a project), and the keys to get going with, laid out
//! as a table centered as one block.

use crate::tabs::EDITOR_NAME;
use crate::text::{span_width, span_width_of};
use vstd::prelude::*;

verus! {

/// What's shown under the editor's name when the directory the editor
/// was started in isn't part of a project.
pub const NOT_A_PROJECT: &'static str = "not a project: only this directory's own files are indexed";

/// A path too wide for `width` columns, counted in characters, keeps its
/// end (the part that says where this is) behind an ellipsis.
pub open spec fn fitted_location(location: Seq<char>, width: nat) -> Seq<char> {
    if location.len() > width && width > 0 {
        seq!['…'] + location.subrange(location.len() - (width - 1), location.len() as int)
    } else {
        location
    }
}

/// The location as the page shows it in `width` columns.
pub fn fit_location(location: &str, width: usize) -> (shown: String)
    ensures
        shown@ == fitted_location(location@, width as nat),
{
    let n = location.unicode_len();
    if n > width && width > 0 {
        let kept = location.substring_char(n - (width - 1), n);
        proof {
            reveal_strlit("…");
        }
        String::from_str("…").concat(kept)
    } else {
        String::from_str(location)
    }
}

/// `text` followed by spaces to make `width` characters, as `{:<width$}`
/// pads it; nothing added when it is as long already.
pub open spec fn padded(text: Seq<char>, width: nat) -> Seq<char> {
    if text.len() < width {
        text + Seq::new((width - text.len()) as nat, |i: int| ' ')
    } else {
        text
    }
}

fn pad(text: &str, width: usize) -> (padded_text: String)
    ensures
        padded_text@ == padded(text@, width as nat),
{
    let n = text.unicode_len();
    let mut out = String::from_str(text);
    if n >= width {
        return out;
    }
    let mut i: usize = 0;
    while i < width - n
        invariant
            n < width,
            n == text@.len(),
            i <= width - n,
            out@ == text@ + Seq::new(i as nat, |k: int| ' '),
        decreases width - n - i,
    {
        out.append(" ");
        proof {
            reveal_strlit(" ");
            assert(out@ =~= text@ + Seq::new((i + 1) as nat, |k: int| ' '));
        }
        i = i + 1;
    }
    out
}

/// The keys the page lists, and what each does; the first opens a file,
/// of the project or, when there isn't one, of the directory.
pub open spec fn keys_of(project: bool) -> Seq<(Seq<char>, Seq<char>)> {
    seq![
        ("Ctrl+O"@, if project { "open a project file"@ } else { "open a file in this directory"@ }),
        ("Ctrl+Shift+F"@, "search in project files"@),
        ("Ctrl+T"@, "switch between open tabs"@),
        ("Ctrl+L"@, "browse the git history"@),
        ("Ctrl+U"@, "review, stage, and commit changes"@),
        ("Ctrl+`"@, "open a shell below the editor"@),
        ("Ctrl+B"@, "build the current target"@),
        ("Ctrl+R"@, "run the current target"@),
        ("Ctrl+E"@, "switch views: editor, pages, tools"@),
        ("Ctrl+P"@, "search every command and its key"@),
        ("Ctrl+]"@, "in a tool, prefix for the editor's keys"@),
        ("Ctrl+Q"@, "quit"@),
    ]
}

fn keys(project: bool) -> (listed: Vec<(&'static str, &'static str)>)
    ensures
        listed@.len() == keys_of(project).len(),
        forall|i: int|
            0 <= i < listed@.len() ==> (#[trigger] listed@[i]).0@ == keys_of(project)[i].0
                && listed@[i].1@ == keys_of(project)[i].1,
{
    let listed = vec![
        ("Ctrl+O", if project { "open a project file" } else { "open a file in this directory" }),
        ("Ctrl+Shift+F", "search in project files"),
        ("Ctrl+T", "switch between open tabs"),
        ("Ctrl+L", "browse the git history"),
        ("Ctrl+U", "review, stage, and commit changes"),
        ("Ctrl+`", "open a shell below the editor"),
        ("Ctrl+B", "build the current target"),
        ("Ctrl+R", "run the current target"),
        ("Ctrl+E", "switch views: editor, pages, tools"),
        ("Ctrl+P", "search every command and its key"),
        ("Ctrl+]", "in a tool, prefix for the editor's keys"),
        ("Ctrl+Q", "quit"),
    ];
    proof {
        assert(listed@.len() == 12);
    }
    listed
}

/// The widest of the first `n` keys, as the terminal measures them.
pub open spec fn widest_key(keys: Seq<(Seq<char>, Seq<char>)>, n: int) -> nat
    decreases n,
{
    if n <= 0 {
        0
    } else {
        let rest = widest_key(keys, n - 1);
        let w = span_width_of(keys[n - 1].0);
        if w > rest { w } else { rest }
    }
}

/// The table's rows: each key padded to three more than the widest key
/// (or the largest `usize`, if that is more) so that the descriptions
/// line up in a column, then its description.
pub open spec fn table_rows(project: bool) -> Seq<Seq<char>> {
    let keys = keys_of(project);
    let wanted = widest_key(keys, keys.len() as int) + 3;
    let column: nat = if wanted <= usize::MAX { wanted } else { usize::MAX as nat };
    keys.map_values(|k: (Seq<char>, Seq<char>)| padded(k.0, column) + k.1)
}

/// The table's rows.
pub fn key_table(project: bool) -> (rows: Vec<String>)
    ensures
        rows@.len() == table_rows(project).len(),
        forall|i: int| 0 <= i < rows@.len() ==> (#[trigger] rows@[i])@ == table_rows(project)[i],
{
    let listed = keys(project);
    let ghost spec_keys = keys_of(project);
    let mut widest: usize = 0;
    let mut i: usize = 0;
    while i < listed.len()
        invariant
            i <= listed@.len(),
            listed@.len() == spec_keys.len(),
            spec_keys == keys_of(project),
            forall|k: int|
                0 <= k < listed@.len() ==> (#[trigger] listed@[k]).0@ == spec_keys[k].0 && listed@[k].1@
                    == spec_keys[k].1,
            widest == widest_key(spec_keys, i as int),
        decreases listed@.len() - i,
    {
        let w = span_width(listed[i].0);
        if w > widest {
            widest = w;
        }
        i = i + 1;
    }
    let column = widest.saturating_add(3);
    let mut rows: Vec<String> = Vec::new();
    let mut i: usize = 0;
    while i < listed.len()
        invariant
            i <= listed@.len(),
            listed@.len() == spec_keys.len(),
            spec_keys == keys_of(project),
            forall|k: int|
                0 <= k < listed@.len() ==> (#[trigger] listed@[k]).0@ == spec_keys[k].0 && listed@[k].1@
                    == spec_keys[k].1,
            widest == widest_key(spec_keys, spec_keys.len() as int),
            column == (if widest + 3 <= usize::MAX { widest + 3 } else { usize::MAX as int }),
            rows@.len() == i,
            forall|k: int| 0 <= k < i ==> (#[trigger] rows@[k])@ == padded(spec_keys[k].0, column as nat)
                + spec_keys[k].1,
        decreases listed@.len() - i,
    {
        let mut row = pad(listed[i].0, column);
        row.append(listed[i].1);
        rows.push(row);
        i = i + 1;
    }
    rows
}

/// A line of the page.
#[derive(Clone, Debug, PartialEq, Eq)]
pub enum EmptyLine {
    /// The editor's name, bold and centered.
    Heading(String),
    /// Centered and dimmed.
    Centered(String),
    /// A row of the keys' table, at the table's left edge.
    Row(String),
}

/// A line of the page as text.
pub enum EmptyLineText {
    Heading(Seq<char>),
    Centered(Seq<char>),
    Row(Seq<char>),
}

/// A line as text.
pub open spec fn empty_line_text(line: EmptyLine) -> EmptyLineText {
    match line {
        EmptyLine::Heading(t) => EmptyLineText::Heading(t@),
        EmptyLine::Centered(t) => EmptyLineText::Centered(t@),
        EmptyLine::Row(t) => EmptyLineText::Row(t@),
    }
}

/// The page's lines, top to bottom: the editor's name, where it was
/// started, what is indexed when it isn't a project, a blank, `No files
/// open`, a blank, and the keys' table.
pub open spec fn empty_lines_of(location: Seq<char>, project: bool, rows: Seq<Seq<char>>) -> Seq<EmptyLineText> {
    seq![EmptyLineText::Heading(EDITOR_NAME@), EmptyLineText::Centered(location)] + (if project {
        Seq::empty()
    } else {
        seq![EmptyLineText::Centered(NOT_A_PROJECT@)]
    }) + seq![
        EmptyLineText::Centered(Seq::empty()),
        EmptyLineText::Centered("No files open"@),
        EmptyLineText::Centered(Seq::empty()),
    ] + rows.map_values(|r: Seq<char>| EmptyLineText::Row(r))
}

/// The page's lines, top to bottom.
pub fn empty_lines(location: String, project: bool, rows: &Vec<String>) -> (lines: Vec<EmptyLine>)
    ensures
        lines@.map_values(|l: EmptyLine| empty_line_text(l)) == empty_lines_of(
            location@,
            project,
            rows@.map_values(|r: String| r@),
        ),
{
    let mut lines: Vec<EmptyLine> = Vec::new();
    lines.push(EmptyLine::Heading(String::from_str(EDITOR_NAME)));
    lines.push(EmptyLine::Centered(location));
    if !project {
        lines.push(EmptyLine::Centered(String::from_str(NOT_A_PROJECT)));
    }
    lines.push(EmptyLine::Centered(String::new()));
    lines.push(EmptyLine::Centered(String::from_str("No files open")));
    lines.push(EmptyLine::Centered(String::new()));
    let ghost head = lines@.map_values(|l: EmptyLine| empty_line_text(l));
    let ghost texts = rows@.map_values(|r: String| r@);
    proof {
        let expected = empty_lines_of(location@, project, texts);
        assert(head + texts.take(0).map_values(|r: Seq<char>| EmptyLineText::Row(r)) =~= head);
    }
    let mut i: usize = 0;
    while i < rows.len()
        invariant
            i <= rows@.len(),
            texts == rows@.map_values(|r: String| r@),
            lines@.map_values(|l: EmptyLine| empty_line_text(l)) == head + texts.take(i as int).map_values(
                |r: Seq<char>| EmptyLineText::Row(r),
            ),
        decreases rows@.len() - i,
    {
        let ghost before = lines@.map_values(|l: EmptyLine| empty_line_text(l));
        lines.push(EmptyLine::Row(rows[i].clone()));
        proof {
            assert(lines@.map_values(|l: EmptyLine| empty_line_text(l)) =~= before.push(
                EmptyLineText::Row(texts[i as int]),
            ));
            assert(texts.take(i as int + 1).map_values(|r: Seq<char>| EmptyLineText::Row(r))
                =~= texts.take(i as int).map_values(|r: Seq<char>| EmptyLineText::Row(r)).push(
                EmptyLineText::Row(texts[i as int]),
            ));
        }
        i = i + 1;
    }
    proof {
        assert(texts.take(rows@.len() as int) =~= texts);
        assert(head =~= seq![EmptyLineText::Heading(EDITOR_NAME@), EmptyLineText::Centered(location@)] + (if project {
            Seq::<EmptyLineText>::empty()
        } else {
            seq![EmptyLineText::Centered(NOT_A_PROJECT@)]
        }) + seq![
            EmptyLineText::Centered(Seq::empty()),
            EmptyLineText::Centered("No files open"@),
            EmptyLineText::Centered(Seq::empty()),
        ]);
    }
    lines
}

/// Where a line `width` columns wide starts when centered in `area_width`
/// columns from `x`.
pub fn centered_x(x: u16, area_width: u16, width: usize) -> (at: u16)
    requires
        x + area_width <= u16::MAX,
    ensures
        at == x + (if width < area_width { (area_width - width) / 2 } else { 0 }),
{
    if width < area_width as usize {
        x + (area_width - width as u16) / 2
    } else {
        x
    }
}

/// The row the page's first line goes on: the lines centered as a block
/// in `height` rows from `y`, or from the top when they don't fit.
pub fn top_row(y: u16, height: u16, lines: usize) -> (top: u16)
    requires
        y + height <= u16::MAX,
    ensures
        top == y + (if lines < height { (height - lines) / 2 } else { 0 }),
{
    if lines < height as usize {
        y + (height - lines as u16) / 2
    } else {
        y
    }
}

} // verus!
