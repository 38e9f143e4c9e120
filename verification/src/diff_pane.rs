//! What the git pages share for showing text: the sideways scrolling of
//! a pane, the measuring of the rows a pane shows, and the rows of a
//! diff that stand for hidden lines.
//!
//! [`HScroll`] is the sideways scrolling of a pane, with the editor's
//! rules: the limit is set by the longest line visible now plus a
//! little slack, not by the longest line there is; scrolling right stops
//! at the limit, but a position already past it (left there by a
//! vertical scroll) stays put until scrolled back; and a scrollbar shows
//! along the bottom while anything is out of view.
//!
//! Where lines are hidden between changes a row says how many, with
//! buttons to reveal more: ▲ from the change below it upward, ▼ from the
//! change above it downward, or all of them.

use crate::geometry::Rect;
use crate::text::{decimal, decimal_text, digit_count, digits, lemma_usize_digits};
use vstd::prelude::*;

verus! {

/// Rows scrolled per mouse wheel notch.
pub const WHEEL_LINES: usize = 3;

/// Columns scrolled per horizontal wheel notch, or by ← and →.
pub const WHEEL_COLUMNS: usize = 4;

/// Columns a pane may scroll past the longest visible line, as in the
/// editor.
pub const HSCROLL_SLACK: usize = 2;

/// Lines of context one press of an expand button reveals.
pub const EXPAND_LINES: usize = 10;

/// A button drawn in a diff's gap row, and what pressing it reveals.
#[derive(Clone, Copy, Debug, PartialEq, Eq, Structural)]
pub enum Button {
    /// Reveal lines above the change below the gap.
    Up(usize),
    /// Reveal lines below the change above the gap.
    Down(usize),
    /// Reveal the whole gap.
    All(usize),
}

/// `a + b`, or the most a `usize` holds.
pub open spec fn add_or_most(a: int, b: int) -> int {
    if a + b > usize::MAX { usize::MAX as int } else { a + b }
}

/// `a - b`, or nothing when `b` is more.
pub open spec fn sub_or_none(a: int, b: int) -> int {
    if a > b { a - b } else { 0 }
}

/// The furthest right a pane `capacity` columns wide can scroll when the
/// lines visible now reach `extent` columns.
pub open spec fn scroll_limit(extent: int, capacity: int) -> int {
    sub_or_none(add_or_most(extent, HSCROLL_SLACK as int), capacity)
}

/// The sideways scrolling of a pane. The caller measures the visible
/// lines, since it knows what they are; the pane's `extent` is the
/// columns from the left edge of what scrolls to the end of the longest
/// visible line, and its `capacity` the columns it has to show them in.
#[derive(Clone, Copy, Debug, PartialEq, Eq, Structural)]
pub struct HScroll {
    pub col: usize,
    /// The capacity as of the last render.
    pub capacity: usize,
    /// The reachable range as of the last render: the visible extent
    /// with its slack, or what is scrolled to, whichever is more.
    pub total: usize,
    /// Where the scrollbar was drawn, empty while hidden.
    pub bar: Rect,
    pub dragging: bool,
}

impl Default for HScroll {
    fn default() -> (h: HScroll)
        ensures
            h == (HScroll { col: 0, capacity: 0, total: 0, bar: Rect::zero(), dragging: false }),
    {
        HScroll { col: 0, capacity: 0, total: 0, bar: Rect::default(), dragging: false }
    }
}

impl HScroll {
    /// The furthest right the pane can scroll for the lines visible now.
    pub fn max_col(&self, extent: usize) -> (limit: usize)
        ensures
            limit == scroll_limit(extent as int, self.capacity as int),
    {
        extent.saturating_add(HSCROLL_SLACK).saturating_sub(self.capacity)
    }

    /// Scroll sideways. Scrolling right stops at the limit, but a
    /// position already past it stays where it is; scrolling left stops
    /// at the left edge.
    pub fn scroll_by(&mut self, columns: isize, extent: usize)
        ensures
            final(self).col == if columns > 0 {
                let target = add_or_most(old(self).col as int, columns as int);
                let limit = scroll_limit(extent as int, old(self).capacity as int);
                let stop = if limit > old(self).col { limit } else { old(self).col as int };
                if target < stop { target } else { stop }
            } else {
                sub_or_none(old(self).col as int, -columns)
            },
            final(self).capacity == old(self).capacity,
            final(self).total == old(self).total,
            final(self).bar == old(self).bar,
            final(self).dragging == old(self).dragging,
    {
        if columns > 0 {
            let target = self.col.saturating_add(columns as usize);
            let stop = self.max_col(extent).max(self.col);
            self.col = target.min(stop);
        } else {
            let back: usize = if columns == isize::MIN {
                (isize::MAX as usize) + 1
            } else {
                (-columns) as usize
            };
            self.col = self.col.saturating_sub(back);
        }
    }

    /// Scroll to where a click or drag at screen column `x` puts the
    /// scrollbar's thumb, with the same limit as
    /// [`scroll_by`](Self::scroll_by).
    pub fn scroll_to(&mut self, x: u16, extent: usize)
        ensures
            ({
                let track = if old(self).bar.width > 0 { old(self).bar.width as int } else { 1 };
                let column = sub_or_none(x as int, old(self).bar.x as int);
                let most = sub_or_none(old(self).total as int, old(self).capacity as int);
                let place = column * (most + 1) / track;
                let target = if place < most { place } else { most };
                let limit = scroll_limit(extent as int, old(self).capacity as int);
                let stop = if limit > old(self).col { limit } else { old(self).col as int };
                final(self).col == if target > old(self).col {
                    if target < stop { target } else { stop }
                } else {
                    target
                }
            }),
            final(self).capacity == old(self).capacity,
            final(self).total == old(self).total,
            final(self).bar == old(self).bar,
            final(self).dragging == old(self).dragging,
    {
        let track: u128 = if self.bar.width > 0 { self.bar.width as u128 } else { 1 };
        let column: u128 = x.saturating_sub(self.bar.x) as u128;
        let most = self.total.saturating_sub(self.capacity);
        let span: u128 = most as u128 + 1;
        assert(column * span <= 0x10000 * 0x1_0000_0000_0000_0000) by (nonlinear_arith)
            requires
                column <= 0xffff,
                span <= 0x1_0000_0000_0000_0000,
        ;
        let place: u128 = column * span / track;
        let target: usize = if place < most as u128 { place as usize } else { most };
        if target > self.col {
            let stop = self.max_col(extent).max(self.col);
            self.col = target.min(stop);
        } else {
            self.col = target;
        }
    }

    /// Whether the scrollbar is needed: something is out of view to the
    /// right, or the pane is scrolled.
    pub fn needs_bar(&self, extent: usize, capacity: usize) -> (needed: bool)
        ensures
            needed == (self.col > 0 || extent > capacity),
    {
        self.col > 0 || extent > capacity
    }

    /// Note a render's measurements: the capacity, the reachable range,
    /// and where the scrollbar goes, or none (an empty `bar`) when it
    /// can't be drawn. Returns whether a scrollbar is to be drawn.
    pub fn measure(&mut self, extent: usize, capacity: usize, bar: Rect) -> (drawn: bool)
        ensures
            final(self).col == old(self).col,
            final(self).dragging == old(self).dragging,
            final(self).capacity == capacity,
            ({
                let reach = add_or_most(extent as int, HSCROLL_SLACK as int);
                let scrolled = add_or_most(old(self).col as int, capacity as int);
                final(self).total == if reach > scrolled { reach } else { scrolled }
            }),
            drawn == !(bar.width == 0 || bar.height == 0 || capacity == 0),
            final(self).bar == if drawn { bar } else { Rect::zero() },
    {
        self.capacity = capacity;
        self.total = extent.saturating_add(HSCROLL_SLACK).max(self.col.saturating_add(capacity));
        if bar.width == 0 || bar.height == 0 || capacity == 0 {
            self.bar = Rect::default();
            false
        } else {
            self.bar = bar;
            true
        }
    }
}

/// A scroll that is at its limit stays there when scrolled further right,
/// and one past its limit isn't pulled back by it.
pub proof fn scrolling_right_never_passes_the_limit(
    col: int,
    columns: int,
    extent: int,
    capacity: int,
)
    requires
        0 <= col <= usize::MAX,
        columns > 0,
    ensures
        ({
            let target = add_or_most(col, columns);
            let limit = scroll_limit(extent, capacity);
            let stop = if limit > col { limit } else { col };
            let after = if target < stop { target } else { stop };
            &&& col <= after
            &&& after <= (if limit > col { limit } else { col })
            &&& col >= limit ==> after == col
        }),
{
}

/// `value` within `low..=high`, or `high` when the bounds cross (a pane
/// too small for both minimums gets what there is).
pub open spec fn clamped(value: int, low: int, high: int) -> int {
    let upper = if value < high { value } else { high };
    let floor = if low < high { low } else { high };
    if upper > floor { upper } else { floor }
}

/// `value` within `low..=high`, or `high` when the bounds cross.
pub fn clamp_between(value: u16, low: u16, high: u16) -> (c: u16)
    ensures
        c == clamped(value as int, low as int, high as int),
        c <= high,
        low <= high ==> low <= c,
        low <= value <= high ==> c == value,
{
    value.min(high).max(low.min(high))
}

/// The widest of `count` rows from `start`, given each row's width: the
/// columns the visible rows reach.
pub open spec fn widest_of(widths: Seq<usize>, start: int, count: int) -> int
    decreases count,
{
    if count <= 0 || start >= widths.len() {
        0
    } else {
        let rest = widest_of(widths, start + 1, count - 1);
        if widths[start] > rest { widths[start] as int } else { rest }
    }
}

proof fn lemma_widest_bounded(widths: Seq<usize>, start: int, count: int)
    requires
        0 <= start,
    ensures
        0 <= widest_of(widths, start, count) <= usize::MAX,
    decreases count,
{
    if count > 0 && start < widths.len() {
        lemma_widest_bounded(widths, start + 1, count - 1);
    }
}

/// The widest of `count` rows from `start`.
pub fn widest(widths: &[usize], start: usize, count: usize) -> (extent: usize)
    ensures
        extent == widest_of(widths@, start as int, count as int),
    decreases count,
{
    if count == 0 || start >= widths.len() {
        0
    } else {
        let rest = widest(widths, start + 1, count - 1);
        if widths[start] > rest {
            widths[start]
        } else {
            rest
        }
    }
}

/// How the rows of a pane settle: how many show, from which row, how
/// wide they reach, and whether the scrollbar takes the last row.
#[derive(Clone, Copy, Debug, PartialEq, Eq, Structural)]
pub struct Settled {
    pub shown: usize,
    pub scroll: usize,
    pub extent: usize,
    pub show_bar: bool,
}

/// The rows a pane `height` rows tall shows of rows `widths` wide,
/// scrolled by `scroll`, with `show_bar` rows taken by the scrollbar:
/// scrolled no further than leaves the last row reachable.
pub open spec fn settle_pass(widths: Seq<usize>, height: int, scroll: int, show_bar: bool) -> Settled {
    let shown = if show_bar { height - 1 } else { height };
    let last = sub_or_none(widths.len() as int, shown);
    let first = if scroll < last { scroll } else { last };
    Settled {
        shown: shown as usize,
        scroll: first as usize,
        extent: widest_of(widths, first, shown) as usize,
        show_bar,
    }
}

/// How the rows settle: measured without the scrollbar first, and again
/// with it when the rows shown need it and the pane has a row to spare.
pub open spec fn settled(
    widths: Seq<usize>,
    height: int,
    scroll: int,
    col: int,
    capacity: int,
) -> Settled {
    let plain = settle_pass(widths, height, scroll, false);
    if (col > 0 || plain.extent > capacity) && height > 1 {
        settle_pass(widths, height, scroll, true)
    } else {
        plain
    }
}

/// Settle the rows of a pane `height` rows tall over rows `widths` wide,
/// asked to scroll by `scroll`, sideways scrolled as `h` is, `capacity`
/// columns wide.
pub fn settle_rows(widths: &[usize], height: usize, scroll: usize, h: &HScroll, capacity: usize) -> (s: Settled)
    ensures
        s == settled(widths@, height as int, scroll as int, h.col as int, capacity as int),
        s.shown <= height,
        s.scroll <= scroll,
{
    let plain = settle_pass_rows(widths, height, scroll, false);
    if h.needs_bar(plain.extent, capacity) && height > 1 {
        settle_pass_rows(widths, height, scroll, true)
    } else {
        plain
    }
}

/// One measuring of the rows: with or without the scrollbar's row.
fn settle_pass_rows(widths: &[usize], height: usize, scroll: usize, show_bar: bool) -> (s: Settled)
    requires
        show_bar ==> height > 0,
    ensures
        s == settle_pass(widths@, height as int, scroll as int, show_bar),
        s.shown <= height,
        s.scroll <= scroll,
{
    let shown = if show_bar { height - 1 } else { height };
    let last = widths.len().saturating_sub(shown);
    let first = scroll.min(last);
    proof {
        lemma_widest_bounded(widths@, first as int, shown as int);
    }
    let extent = widest(widths, first, shown);
    Settled { shown, scroll: first, extent, show_bar }
}

/// What a gap row says, piece by piece, with the buttons among them:
/// ▲ and ▼ with the lines a press reveals, `all` when a press wouldn't
/// reveal them all, and how many lines are hidden.
pub open spec fn gap_pieces(gap: usize, hidden: nat, up: bool, down: bool) -> Seq<(Seq<char>, Option<Button>)> {
    let step = if hidden < EXPAND_LINES { hidden } else { EXPAND_LINES as nat };
    let ups = if up { seq![(" ▲ "@ + decimal_text(step) + " "@, Some(Button::Up(gap)))] } else { seq![] };
    let downs = if down { seq![(" ▼ "@ + decimal_text(step) + " "@, Some(Button::Down(gap)))] } else { seq![] };
    let alls = if hidden > EXPAND_LINES { seq![(" all "@, Some(Button::All(gap)))] } else { seq![] };
    let noun = if hidden == 1 { "line"@ } else { "lines"@ };
    ups + downs + alls + seq![("⋯ "@ + decimal_text(hidden) + " "@ + noun + " hidden"@, None)]
}

/// The pieces of a gap row, in order: the expand buttons that apply and
/// then how many lines are hidden.
pub fn gap_row(gap: usize, hidden: usize, up: bool, down: bool) -> (pieces: Vec<(String, Option<Button>)>)
    ensures
        pieces@.len() == gap_pieces(gap, hidden as nat, up, down).len(),
        forall|i: int|
            0 <= i < pieces@.len() ==> (#[trigger] pieces@[i]).0@ == gap_pieces(
                gap,
                hidden as nat,
                up,
                down,
            )[i].0 && pieces@[i].1 == gap_pieces(gap, hidden as nat, up, down)[i].1,
{
    let step = if hidden < EXPAND_LINES { hidden } else { EXPAND_LINES };
    let mut pieces: Vec<(String, Option<Button>)> = Vec::new();
    if up {
        let mut text = String::from_str(" ▲ ");
        text.append(decimal(step).as_str());
        text.append(" ");
        pieces.push((text, Some(Button::Up(gap))));
    }
    if down {
        let mut text = String::from_str(" ▼ ");
        text.append(decimal(step).as_str());
        text.append(" ");
        pieces.push((text, Some(Button::Down(gap))));
    }
    if hidden > EXPAND_LINES {
        pieces.push((String::from_str(" all "), Some(Button::All(gap))));
    }
    let mut text = String::from_str("⋯ ");
    text.append(decimal(hidden).as_str());
    text.append(" ");
    text.append(if hidden == 1 { "line" } else { "lines" });
    text.append(" hidden");
    pieces.push((text, None));
    proof {
        let spec_pieces = gap_pieces(gap, hidden as nat, up, down);
        assert(pieces@.len() == spec_pieces.len());
    }
    pieces
}

/// Where each piece of a row goes when placed one after another from
/// column `start`, a column apart: a piece that would reach past `right`
/// is left out, and the next is tried where it would have gone.
pub open spec fn placed_from(widths: Seq<u16>, start: int, right: int) -> Seq<Option<int>>
    decreases widths.len(),
{
    if widths.len() == 0 {
        Seq::empty()
    } else if start + widths[0] > right {
        seq![None] + placed_from(widths.drop_first(), start, right)
    } else {
        seq![Some(start)] + placed_from(widths.drop_first(), start + widths[0] + 1, right)
    }
}

/// Columns as integers.
pub open spec fn places_view(places: Seq<Option<u16>>) -> Seq<Option<int>> {
    places.map_values(|p: Option<u16>| match p {
        Some(v) => Some(v as int),
        None => None,
    })
}

/// Where each piece of a gap row goes, by its width, from column `start`
/// with the row ending at `right`.
pub fn place_pieces(widths: &[u16], start: u16, right: u16) -> (places: Vec<Option<u16>>)
    ensures
        places_view(places@) == placed_from(widths@, start as int, right as int),
{
    let mut places: Vec<Option<u16>> = Vec::new();
    let mut x: usize = start as usize;
    let mut i: usize = 0;
    proof {
        assert(widths@.subrange(0, widths@.len() as int) =~= widths@);
        assert(places_view(places@) + placed_from(widths@, start as int, right as int)
            =~= placed_from(widths@, start as int, right as int));
    }
    while i < widths.len()
        invariant
            i <= widths@.len(),
            x <= u16::MAX as int + 1,
            placed_from(widths@, start as int, right as int) == places_view(places@) + placed_from(
                widths@.subrange(i as int, widths@.len() as int),
                x as int,
                right as int,
            ),
        decreases widths@.len() - i,
    {
        let ghost before = places@;
        let ghost rest = widths@.subrange(i as int, widths@.len() as int);
        proof {
            assert(rest.drop_first() =~= widths@.subrange(i as int + 1, widths@.len() as int));
        }
        let w = widths[i] as usize;
        if x + w > right as usize {
            places.push(None);
            proof {
                assert(places_view(places@) =~= places_view(before).push(None));
                assert(places_view(places@) + placed_from(rest.drop_first(), x as int, right as int)
                    =~= places_view(before) + placed_from(rest, x as int, right as int));
            }
        } else {
            places.push(Some(x as u16));
            proof {
                assert(places_view(places@) =~= places_view(before).push(Some(x as int)));
                assert(places_view(places@) + placed_from(rest.drop_first(), x + w + 1, right as int)
                    =~= places_view(before) + placed_from(rest, x as int, right as int));
            }
            x = x + w + 1;
        }
        i = i + 1;
    }
    proof {
        assert(widths@.subrange(widths@.len() as int, widths@.len() as int) =~= Seq::<u16>::empty());
        assert(places_view(places@) + Seq::<Option<int>>::empty() =~= places_view(places@));
    }
    places
}

/// Why a file's diff isn't shown.
#[derive(Clone, Copy, Debug, PartialEq, Eq, Structural)]
pub enum Unshown {
    Binary,
    TooLarge,
    /// A submodule: what changed is the commit it points at.
    Submodule,
}

/// What the diff pane says in place of a diff that isn't shown.
pub fn unshown_message(unshown: Unshown) -> (text: &'static str)
    ensures
        text@ == match unshown {
            Unshown::Binary => "Binary file"@,
            Unshown::TooLarge => "File too large to show"@,
            Unshown::Submodule => "Submodule: the commit it points at changed"@,
        },
{
    match unshown {
        Unshown::Binary => "Binary file",
        Unshown::TooLarge => "File too large to show",
        Unshown::Submodule => "Submodule: the commit it points at changed",
    }
}

/// How a file with no lines changed came to be listed.
#[derive(Clone, Copy, Debug, PartialEq, Eq, Structural)]
pub enum Unchanged {
    Renamed,
    Copied,
    /// Any other change that leaves the contents as they were: a mode
    /// change, say.
    Other,
}

/// What the diff pane says for a diff with no rows.
pub fn no_changes_message(unchanged: Unchanged) -> (text: &'static str)
    ensures
        text@ == match unchanged {
            Unchanged::Renamed => "Renamed without changes"@,
            Unchanged::Copied => "Copied without changes"@,
            Unchanged::Other => "No changes to the contents"@,
        },
{
    match unchanged {
        Unchanged::Renamed => "Renamed without changes",
        Unchanged::Copied => "Copied without changes",
        Unchanged::Other => "No changes to the contents",
    }
}

/// The gutter's width: the old and the new line numbers, each as wide as
/// the file's last line number and followed by a space.
pub open spec fn gutter_width_of(old_lines: nat, new_lines: nat) -> nat {
    digit_count(old_lines) + 1 + digit_count(new_lines) + 1
}

/// The gutter's width for files of `old_lines` and `new_lines` lines.
pub fn gutter_width(old_lines: usize, new_lines: usize) -> (width: usize)
    ensures
        width == gutter_width_of(old_lines as nat, new_lines as nat),
{
    proof {
        lemma_usize_digits(old_lines);
        lemma_usize_digits(new_lines);
    }
    digits(old_lines) + 1 + digits(new_lines) + 1
}

/// `text` right-aligned in `width` columns: spaces before it to make up
/// the width, none when it is as wide already.
pub open spec fn right_aligned(text: Seq<char>, width: nat) -> Seq<char> {
    if text.len() < width {
        Seq::new((width - text.len()) as nat, |i: int| ' ') + text
    } else {
        text
    }
}

/// A line number as the gutter shows it, counting from one: nothing for
/// a line the side doesn't have.
pub open spec fn number_text(line: Option<usize>) -> Seq<char> {
    match line {
        Some(n) => decimal_text((n + 1) as nat),
        None => Seq::empty(),
    }
}

fn right_align(text: String, width: usize) -> (aligned: String)
    ensures
        aligned@ == right_aligned(text@, width as nat),
{
    let n = text.unicode_len();
    if n >= width {
        return text;
    }
    let mut pad = String::new();
    let mut i: usize = 0;
    while i < width - n
        invariant
            n < width,
            i <= width - n,
            pad@ == Seq::new(i as nat, |k: int| ' '),
        decreases width - n - i,
    {
        pad.append(" ");
        proof {
            reveal_strlit(" ");
            assert(pad@ =~= Seq::new((i + 1) as nat, |k: int| ' '));
        }
        i = i + 1;
    }
    pad.append(text.as_str());
    pad
}

/// A diff line's gutter: its old and new line numbers, right-aligned in
/// their columns, a space between.
pub fn line_numbers(old: Option<usize>, new: Option<usize>, old_digits: usize, new_digits: usize) -> (text: String)
    requires
        old matches Some(n) ==> n < usize::MAX,
        new matches Some(n) ==> n < usize::MAX,
    ensures
        text@ == right_aligned(number_text(old), old_digits as nat) + " "@ + right_aligned(
            number_text(new),
            new_digits as nat,
        ),
{
    let old_text = match old {
        Some(n) => decimal(n + 1),
        None => String::new(),
    };
    let new_text = match new {
        Some(n) => decimal(n + 1),
        None => String::new(),
    };
    let mut text = right_align(old_text, old_digits);
    text.append(" ");
    text.append(right_align(new_text, new_digits).as_str());
    text
}

/// What a diff line is.
#[derive(Clone, Copy, Debug, PartialEq, Eq, Structural)]
pub enum LineKind {
    Context,
    Added,
    Removed,
}

/// The marker beside a diff line: `+` added, `-` removed, a space for
/// context.
pub fn marker(kind: LineKind) -> (text: &'static str)
    ensures
        text@ == match kind {
            LineKind::Context => " "@,
            LineKind::Added => "+"@,
            LineKind::Removed => "-"@,
        },
{
    match kind {
        LineKind::Context => " ",
        LineKind::Added => "+",
        LineKind::Removed => "-",
    }
}

} // verus!
