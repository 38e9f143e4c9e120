//! Screen rectangles, as the terminal's cells are addressed: columns
//! from the left and rows from the top, each a `u16`.

use vstd::prelude::*;

verus! {

/// A rectangle of cells. Built with [`Rect::new`], it never reaches past
/// the last addressable column or row.
#[derive(Clone, Copy, Debug, PartialEq, Eq, Structural)]
pub struct Rect {
    pub x: u16,
    pub y: u16,
    pub width: u16,
    pub height: u16,
}

impl Rect {
    /// Whether the rectangle stays within the addressable cells, as
    /// [`Rect::new`] makes it.
    pub open spec fn wf(self) -> bool {
        self.x + self.width <= u16::MAX && self.y + self.height <= u16::MAX
    }

    /// The first column past the rectangle.
    pub open spec fn right_of(self) -> int {
        if self.x + self.width > u16::MAX { u16::MAX as int } else { self.x + self.width }
    }

    /// The first row past the rectangle.
    pub open spec fn bottom_of(self) -> int {
        if self.y + self.height > u16::MAX { u16::MAX as int } else { self.y + self.height }
    }

    /// Whether a cell is inside the rectangle.
    pub open spec fn holds(self, x: int, y: int) -> bool {
        self.x <= x < self.right_of() && self.y <= y < self.bottom_of()
    }

    /// The rectangle with no area at the origin.
    pub open spec fn zero() -> Rect {
        Rect { x: 0, y: 0, width: 0, height: 0 }
    }

    /// A rectangle at `(x, y)`, cut short where it would reach past the
    /// last addressable column or row.
    pub open spec fn at(x: u16, y: u16, width: u16, height: u16) -> Rect {
        Rect {
            x,
            y,
            width: if x + width > u16::MAX { (u16::MAX - x) as u16 } else { width },
            height: if y + height > u16::MAX { (u16::MAX - y) as u16 } else { height },
        }
    }

    /// A rectangle at `(x, y)`, cut short where it would reach past the
    /// last addressable column or row.
    pub fn new(x: u16, y: u16, width: u16, height: u16) -> (r: Rect)
        ensures
            r == Rect::at(x, y, width, height),
            r.wf(),
    {
        let max_width = u16::MAX - x;
        let max_height = u16::MAX - y;
        Rect {
            x,
            y,
            width: if width > max_width { max_width } else { width },
            height: if height > max_height { max_height } else { height },
        }
    }

    /// The first column past the rectangle.
    pub fn right(&self) -> (r: u16)
        ensures
            r == self.right_of(),
    {
        self.x.saturating_add(self.width)
    }

    /// The first row past the rectangle.
    pub fn bottom(&self) -> (b: u16)
        ensures
            b == self.bottom_of(),
    {
        self.y.saturating_add(self.height)
    }

    /// Whether the cell at `(x, y)` is inside the rectangle.
    pub fn contains(&self, x: u16, y: u16) -> (inside: bool)
        ensures
            inside == self.holds(x as int, y as int),
    {
        x >= self.x && x < self.right() && y >= self.y && y < self.bottom()
    }

    /// Whether the rectangle has no cells.
    pub fn is_empty(&self) -> (empty: bool)
        ensures
            empty == (self.width == 0 || self.height == 0),
    {
        self.width == 0 || self.height == 0
    }
}

impl Default for Rect {
    fn default() -> (r: Rect)
        ensures
            r == Rect::zero(),
    {
        Rect { x: 0, y: 0, width: 0, height: 0 }
    }
}

/// The inside of a frame drawn on `area`'s edges: one cell in from each
/// side, or nothing where the area is too small to have an inside.
pub open spec fn framed_inside(area: Rect) -> Rect {
    Rect {
        x: if area.x + 1 <= area.right_of() { (area.x + 1) as u16 } else { area.right_of() as u16 },
        y: if area.y + 1 <= area.bottom_of() { (area.y + 1) as u16 } else { area.bottom_of() as u16 },
        width: if area.width >= 2 { (area.width - 2) as u16 } else { 0 },
        height: if area.height >= 2 { (area.height - 2) as u16 } else { 0 },
    }
}

/// The inside of a frame drawn on `area`'s edges.
pub fn inside_frame(area: Rect) -> (inside: Rect)
    ensures
        inside == framed_inside(area),
{
    let right = area.right();
    let bottom = area.bottom();
    let x = if area.x < right { area.x + 1 } else { right };
    let y = if area.y < bottom { area.y + 1 } else { bottom };
    Rect {
        x,
        y,
        width: area.width.saturating_sub(2),
        height: area.height.saturating_sub(2),
    }
}

/// The first row a list scrolled by `scroll` should show so that the
/// row `selected` is in view in a pane `height` rows tall: unchanged if
/// it already is, else just far enough.
pub open spec fn scrolled_to_show(scroll: int, selected: int, height: int) -> int {
    if selected < scroll {
        selected
    } else if selected >= scroll + height {
        selected + 1 - height
    } else {
        scroll
    }
}

/// Scroll just far enough for the row `selected` to show in a pane
/// `height` rows tall.
pub fn scroll_to_show(scroll: usize, selected: usize, height: usize) -> (first: usize)
    requires
        height > 0,
    ensures
        first == scrolled_to_show(scroll as int, selected as int, height as int),
        first <= selected < first + height,
{
    if selected < scroll {
        selected
    } else if selected - scroll >= height {
        selected - (height - 1)
    } else {
        scroll
    }
}

} // verus!
