//! The changes page (Ctrl+U): what is changed in the working tree and
//! not yet committed, for reviewing, staging, and committing it.
//!
//! The left of the page is the file lists, `Unstaged changes` above and
//! `Staged changes` below; the rest is the diff of the selected file,
//! and under it the commit box: a line saying where the commit goes
//! with the amend toggle at its right, and the message. On a page too
//! narrow for a diff the box goes under the lists.
//!
//! The keyboard is in one pane at a time; Tab and Shift+Tab move it
//! round (the lists, the diff, the commit box). In a list ↑ and ↓ move
//! between rows, running on from the end of the unstaged list into the
//! staged one and from there into the commit box.
//!
//! The rules between the panes drag to resize them; the sizes are kept
//! as shares of the space each divides, and each pane keeps its minimum
//! whatever it is dragged to.

use crate::geometry::Rect;
use crate::text::{decimal, decimal_text, is_blank, is_blank_text};
use vstd::prelude::*;

verus! {

/// The name of the page, shown in its tab.
pub const TITLE: &'static str = "Git Changes";

/// The file lists' width, within these bounds, as a share of the page.
pub const MIN_FILES_WIDTH: u16 = 24;

pub const MAX_FILES_WIDTH: u16 = 60;

/// The least the diff keeps when the lists are widened.
pub const MIN_CONTENT_WIDTH: u16 = 16;

/// The least a list keeps: its heading and one row.
pub const MIN_LIST_HEIGHT: u16 = 2;

/// The least the diff keeps above the commit box.
pub const MIN_CONTENT_HEIGHT: u16 = 5;

/// The commit box's least height: the rule above it, its heading, and
/// one row of the message.
pub const MIN_COMMIT_HEIGHT: u16 = 3;

/// How many rows the commit box starts with.
pub const DEFAULT_COMMIT_HEIGHT: u16 = 9;

/// Which pane has the keyboard.
#[derive(Clone, Copy, Debug, PartialEq, Eq, Structural)]
pub enum Pane {
    Unstaged,
    Staged,
    Commit,
    Content,
}

impl Pane {
    /// The pane after this one: down the lists, then the diff, then the
    /// commit box under it.
    pub open spec fn after(self) -> Pane {
        match self {
            Pane::Unstaged => Pane::Staged,
            Pane::Staged => Pane::Content,
            Pane::Content => Pane::Commit,
            Pane::Commit => Pane::Unstaged,
        }
    }

    /// The pane before this one.
    pub open spec fn before(self) -> Pane {
        match self {
            Pane::Unstaged => Pane::Commit,
            Pane::Staged => Pane::Unstaged,
            Pane::Content => Pane::Staged,
            Pane::Commit => Pane::Content,
        }
    }

    /// The pane after this one.
    pub fn next(self) -> (pane: Pane)
        ensures
            pane == self.after(),
    {
        match self {
            Pane::Unstaged => Pane::Staged,
            Pane::Staged => Pane::Content,
            Pane::Content => Pane::Commit,
            Pane::Commit => Pane::Unstaged,
        }
    }

    /// The pane before this one.
    pub fn previous(self) -> (pane: Pane)
        ensures
            pane == self.before(),
    {
        match self {
            Pane::Unstaged => Pane::Commit,
            Pane::Staged => Pane::Unstaged,
            Pane::Content => Pane::Staged,
            Pane::Commit => Pane::Content,
        }
    }
}

/// Tab and Shift+Tab undo each other, and four presses of either go
/// round every pane back to where they started.
pub proof fn tab_goes_round_the_panes(pane: Pane)
    ensures
        pane.after().before() == pane,
        pane.before().after() == pane,
        pane.after().after().after().after() == pane,
        pane.after() != pane,
        pane.after().after() != pane,
        pane.after().after().after() != pane,
{
}

/// One of the two file lists.
#[derive(Clone, Copy, Debug, PartialEq, Eq, Structural)]
pub enum List {
    Unstaged,
    Staged,
}

impl List {
    /// The pane the list is in.
    pub open spec fn pane_of(self) -> Pane {
        match self {
            List::Unstaged => Pane::Unstaged,
            List::Staged => Pane::Staged,
        }
    }

    /// The pane the list is in.
    pub fn pane(self) -> (pane: Pane)
        ensures
            pane == self.pane_of(),
    {
        match self {
            List::Unstaged => Pane::Unstaged,
            List::Staged => Pane::Staged,
        }
    }
}

// ----- Sizing the panes --------------------------------------------------------

/// `value` within `low..=high`, or `high` when the bounds cross.
pub open spec fn within(value: int, low: int, high: int) -> int {
    let upper = if value < high { value } else { high };
    let floor = if low < high { low } else { high };
    if upper > floor { upper } else { floor }
}

fn clamp_u16(value: u16, low: u16, high: u16) -> (c: u16)
    ensures
        c == within(value as int, low as int, high as int),
{
    value.min(high).max(low.min(high))
}

/// The file lists' width for a page `width` columns wide: what it was
/// dragged to (`dragged`, the dragged share of the width in columns), or
/// a third of the page within bounds, within what leaves the diff its
/// minimum. A page too narrow for both is all lists.
pub open spec fn files_width(width: int, dragged: Option<u16>) -> int {
    if width < MIN_FILES_WIDTH + 1 + MIN_CONTENT_WIDTH {
        width
    } else {
        let wanted = match dragged {
            Some(cells) => cells as int,
            None => within(width / 3, MIN_FILES_WIDTH as int, MAX_FILES_WIDTH as int),
        };
        within(wanted, MIN_FILES_WIDTH as int, width - (MIN_CONTENT_WIDTH + 1))
    }
}

/// The file lists' width for a page `width` columns wide.
pub fn files_width_for(width: u16, dragged: Option<u16>) -> (w: u16)
    ensures
        w == files_width(width as int, dragged),
        w <= width,
        w < width ==> MIN_FILES_WIDTH <= w && w + 1 + MIN_CONTENT_WIDTH <= width,
{
    if width < MIN_FILES_WIDTH + 1 + MIN_CONTENT_WIDTH {
        return width;
    }
    let wanted = match dragged {
        Some(cells) => cells,
        None => clamp_u16(width / 3, MIN_FILES_WIDTH, MAX_FILES_WIDTH),
    };
    let most = width - (MIN_CONTENT_WIDTH + 1);
    clamp_u16(wanted, MIN_FILES_WIDTH, most)
}

/// The commit box's height (its rule included) for a page `height` rows
/// tall: what it was dragged to, or where it starts, within what leaves
/// what is above it (the diff, or on a narrow page the lists) its
/// minimum; none on a page too short for both.
pub open spec fn commit_height(height: int, dragged: Option<u16>) -> int {
    let above = if MIN_CONTENT_HEIGHT > 2 * MIN_LIST_HEIGHT + 1 {
        MIN_CONTENT_HEIGHT as int
    } else {
        2 * MIN_LIST_HEIGHT + 1
    };
    if height < above + MIN_COMMIT_HEIGHT {
        0
    } else {
        let wanted = match dragged {
            Some(cells) => cells as int,
            None => DEFAULT_COMMIT_HEIGHT as int,
        };
        within(wanted, MIN_COMMIT_HEIGHT as int, height - above)
    }
}

/// The commit box's height for a page `height` rows tall.
pub fn commit_height_for(height: u16, dragged: Option<u16>) -> (h: u16)
    ensures
        h == commit_height(height as int, dragged),
        h == 0 || (MIN_COMMIT_HEIGHT <= h && h + MIN_CONTENT_HEIGHT <= height && h + 2
            * MIN_LIST_HEIGHT + 1 <= height),
{
    let lists_min = MIN_LIST_HEIGHT + 1 + MIN_LIST_HEIGHT;
    let above_min = MIN_CONTENT_HEIGHT.max(lists_min);
    if height < above_min + MIN_COMMIT_HEIGHT {
        return 0;
    }
    let wanted = match dragged {
        Some(cells) => cells,
        None => DEFAULT_COMMIT_HEIGHT,
    };
    clamp_u16(wanted, MIN_COMMIT_HEIGHT, height - above_min)
}

/// The file lists' height for the page's size: the whole height, unless
/// the page is too narrow for a diff, in which case the commit box is
/// under the lists and takes its share of it.
pub fn lists_height_for(width: u16, height: u16, files: Option<u16>, commit: Option<u16>) -> (h: u16)
    ensures
        h == if files_width(width as int, files) < width {
            height as int
        } else {
            height - commit_height(height as int, commit)
        },
        h <= height,
{
    if files_width_for(width, files) < width {
        height
    } else {
        height - commit_height_for(height, commit)
    }
}

/// The unstaged list's height for the lists' height: what it was
/// dragged to (half, to start with), within what leaves the staged list
/// its minimum; too short for both, it is all unstaged.
pub open spec fn unstaged_height(height: int, wanted: int) -> int {
    if height < 2 * MIN_LIST_HEIGHT + 1 {
        height
    } else {
        within(wanted, MIN_LIST_HEIGHT as int, height - (MIN_LIST_HEIGHT + 1))
    }
}

/// The unstaged list's height for the lists' height, `wanted` being the
/// dragged share (or half) of it in rows.
pub fn unstaged_height_for(height: u16, wanted: u16) -> (h: u16)
    ensures
        h == unstaged_height(height as int, wanted as int),
        h <= height,
        h < height ==> MIN_LIST_HEIGHT <= h && h + 1 + MIN_LIST_HEIGHT <= height,
{
    if height < MIN_LIST_HEIGHT + 1 + MIN_LIST_HEIGHT {
        return height;
    }
    clamp_u16(wanted, MIN_LIST_HEIGHT, height - (MIN_LIST_HEIGHT + 1))
}

/// Where the changes page's panes and the rules between them go.
#[derive(Clone, Copy, Debug, PartialEq, Eq, Structural)]
pub struct ChangesPanes {
    /// The file lists' right edge, when there is a diff beside them.
    pub files_rule: Rect,
    /// The diff.
    pub content: Rect,
    pub unstaged: Rect,
    /// Between the lists, when both have rows.
    pub lists_rule: Rect,
    pub staged: Rect,
    /// Above the commit box, when there is one.
    pub commit_rule: Rect,
    pub commit: Rect,
}

/// The unstaged list's wanted height in a lists pane `height` rows tall:
/// what it was dragged to, or half, rounded up.
pub open spec fn unstaged_wanted(height: int, dragged: Option<u16>) -> int {
    match dragged {
        Some(cells) => cells as int,
        None => (height + 1) / 2,
    }
}

/// The page's panes in `area`: the lists down the left, the diff and the
/// commit box under it down the right, with rules between them; a page
/// too narrow for a diff is all lists, with the commit box under them.
pub open spec fn changes_panes_of(
    area: Rect,
    files: Option<u16>,
    commit: Option<u16>,
    unstaged: Option<u16>,
) -> ChangesPanes {
    let fw = files_width(area.width as int, files);
    let has_content = fw < area.width;
    let ch = commit_height(area.height as int, commit);
    let lh = if has_content { area.height as int } else { area.height - ch };
    let commit_x = if has_content { area.x + fw + 1 } else { area.x as int };
    let commit_width = if has_content { area.right_of() - (area.x + fw + 1) } else { fw };
    let uh = unstaged_height(lh, unstaged_wanted(lh, unstaged));
    ChangesPanes {
        files_rule: if has_content {
            Rect::at((area.x + fw) as u16, area.y, 1, area.height)
        } else {
            Rect::zero()
        },
        content: if has_content {
            Rect::at(commit_x as u16, area.y, commit_width as u16, (area.height - ch) as u16)
        } else {
            Rect::zero()
        },
        unstaged: Rect::at(area.x, area.y, fw as u16, uh as u16),
        lists_rule: if uh < lh {
            Rect::at(area.x, (area.y + uh) as u16, fw as u16, 1)
        } else {
            Rect::zero()
        },
        staged: if uh < lh {
            Rect::at(area.x, (area.y + uh + 1) as u16, fw as u16, (lh - uh - 1) as u16)
        } else {
            Rect::zero()
        },
        commit_rule: if ch > 0 {
            Rect::at(commit_x as u16, (area.bottom_of() - ch) as u16, commit_width as u16, 1)
        } else {
            Rect::zero()
        },
        commit: if ch > 0 {
            Rect::at(
                commit_x as u16,
                (area.bottom_of() - ch + 1) as u16,
                commit_width as u16,
                (ch - 1) as u16,
            )
        } else {
            Rect::zero()
        },
    }
}

/// Lay the page's panes out in `area`, the rules dragged to `files`,
/// `commit`, and `unstaged` cells where they were; none on a page with
/// no rows or under eight columns.
pub fn changes_panes(area: Rect, files: Option<u16>, commit: Option<u16>, unstaged: Option<u16>) -> (panes: Option<ChangesPanes>)
    requires
        area.wf(),
    ensures
        area.height == 0 || area.width < 8 ==> panes is None,
        !(area.height == 0 || area.width < 8) ==> panes == Some(
            changes_panes_of(area, files, commit, unstaged),
        ),
{
    if area.height == 0 || area.width < 8 {
        return None;
    }
    let zero = Rect { x: 0, y: 0, width: 0, height: 0 };
    let fw = files_width_for(area.width, files);
    let has_content = fw < area.width;
    let ch = commit_height_for(area.height, commit);
    let lh = if has_content { area.height } else { area.height - ch };
    let (commit_x, commit_width) = if has_content {
        let x = area.x + fw + 1;
        (x, area.right() - x)
    } else {
        (area.x, fw)
    };
    let wanted = match unstaged {
        Some(cells) => cells,
        None => lh / 2 + lh % 2,
    };
    let uh = unstaged_height_for(lh, wanted);
    let files_rule = if has_content {
        Rect::new(area.x + fw, area.y, 1, area.height)
    } else {
        zero
    };
    let content = if has_content {
        Rect::new(commit_x, area.y, commit_width, area.height - ch)
    } else {
        zero
    };
    let unstaged_area = Rect::new(area.x, area.y, fw, uh);
    let (lists_rule, staged) = if uh < lh {
        let y = area.y + uh;
        (Rect::new(area.x, y, fw, 1), Rect::new(area.x, y + 1, fw, area.y + lh - (y + 1)))
    } else {
        (zero, zero)
    };
    let (commit_rule, commit_area) = if ch > 0 {
        let y = area.bottom() - ch;
        (Rect::new(commit_x, y, commit_width, 1), Rect::new(commit_x, y + 1, commit_width, ch - 1))
    } else {
        (zero, zero)
    };
    Some(
        ChangesPanes {
            files_rule,
            content,
            unstaged: unstaged_area,
            lists_rule,
            staged,
            commit_rule,
            commit: commit_area,
        },
    )
}

/// However the rules are dragged, each pane keeps its minimum on a page
/// big enough for all of them: the lists and the diff side by side, the
/// diff above the commit box, and the two lists one above the other.
pub proof fn panes_keep_their_minimums(
    width: int,
    height: int,
    files: Option<u16>,
    commit: Option<u16>,
    unstaged: int,
)
    requires
        width >= MIN_FILES_WIDTH + 1 + MIN_CONTENT_WIDTH,
        height >= 2 * MIN_LIST_HEIGHT + 1,
    ensures
        MIN_FILES_WIDTH <= files_width(width, files),
        files_width(width, files) + 1 + MIN_CONTENT_WIDTH <= width,
        commit_height(height, commit) == 0 || height - commit_height(height, commit)
            >= MIN_CONTENT_HEIGHT,
        MIN_LIST_HEIGHT <= unstaged_height(height, unstaged),
        unstaged_height(height, unstaged) + 1 + MIN_LIST_HEIGHT <= height,
{
}

// ----- What the page says ------------------------------------------------------

/// The commit box's heading: what stands in the way of the commit (the
/// conflicts), or where it goes. Detached HEAD has no branch to name.
pub open spec fn heading_of(
    conflicts: nat,
    branch: Option<Seq<char>>,
    amending: bool,
    merging: bool,
    unborn: bool,
) -> Seq<char> {
    if conflicts > 0 {
        "Resolve "@ + decimal_text(conflicts) + if conflicts == 1 {
            " conflict"@
        } else {
            " conflicts"@
        }
    } else if amending {
        match branch {
            Some(name) => "Amend on "@ + name,
            None => "Amend (detached HEAD)"@,
        }
    } else {
        match branch {
            Some(name) => if merging {
                "Merge into "@ + name
            } else if unborn {
                "First commit on "@ + name
            } else {
                "Commit to "@ + name
            },
            None => if merging {
                "Merge (detached HEAD)"@
            } else {
                "Commit (detached HEAD)"@
            },
        }
    }
}

/// The commit box's heading, and whether it is the conflicts standing
/// in the way, to be shown as such.
pub fn commit_heading(
    conflicts: usize,
    branch: Option<&str>,
    amending: bool,
    merging: bool,
    unborn: bool,
) -> (heading: (String, bool))
    ensures
        heading.0@ == heading_of(
            conflicts as nat,
            match branch {
                Some(name) => Some(name@),
                None => None,
            },
            amending,
            merging,
            unborn,
        ),
        heading.1 == (conflicts > 0),
{
    if conflicts > 0 {
        let mut text = String::from_str("Resolve ");
        text.append(decimal(conflicts).as_str());
        text.append(if conflicts == 1 { " conflict" } else { " conflicts" });
        return (text, true);
    }
    let text = if amending {
        match branch {
            Some(name) => String::from_str("Amend on ").concat(name),
            None => String::from_str("Amend (detached HEAD)"),
        }
    } else {
        match branch {
            Some(name) => if merging {
                String::from_str("Merge into ").concat(name)
            } else if unborn {
                String::from_str("First commit on ").concat(name)
            } else {
                String::from_str("Commit to ").concat(name)
            },
            None => if merging {
                String::from_str("Merge (detached HEAD)")
            } else {
                String::from_str("Commit (detached HEAD)")
            },
        }
    };
    (text, false)
}

/// What a changed file is, as far as its row's right edge says.
#[derive(Clone, Copy, Debug, PartialEq, Eq, Structural)]
pub struct FileCounts {
    /// Whether the file is a submodule.
    pub submodule: bool,
    /// Whether the file is in conflict.
    pub conflicted: bool,
    /// Whether the file has no lines to count.
    pub binary: bool,
    /// The lines it gained.
    pub additions: usize,
    /// The lines it lost.
    pub deletions: usize,
}

/// ` +a −d`: lines gained and lost.
pub open spec fn sums_text(additions: nat, deletions: nat) -> Seq<char> {
    " +"@ + decimal_text(additions) + " −"@ + decimal_text(deletions)
}

/// What a file's row shows at its right edge: its counts, or what it is
/// instead of a file with lines.
pub open spec fn counts_text(file: FileCounts) -> Seq<char> {
    if file.submodule {
        " submodule"@
    } else if file.conflicted {
        " conflict"@
    } else if file.binary {
        " bin"@
    } else if file.additions + file.deletions > 0 {
        sums_text(file.additions as nat, file.deletions as nat)
    } else {
        Seq::empty()
    }
}

/// ` +a −d`: lines gained and lost.
pub fn sums(additions: usize, deletions: usize) -> (text: String)
    ensures
        text@ == sums_text(additions as nat, deletions as nat),
{
    let mut text = String::from_str(" +");
    text.append(decimal(additions).as_str());
    text.append(" −");
    text.append(decimal(deletions).as_str());
    text
}

/// What a file's row shows at its right edge.
pub fn counts_of(file: FileCounts) -> (text: String)
    ensures
        text@ == counts_text(file),
{
    if file.submodule {
        String::from_str(" submodule")
    } else if file.conflicted {
        String::from_str(" conflict")
    } else if file.binary {
        String::from_str(" bin")
    } else if file.additions > 0 || file.deletions > 0 {
        sums(file.additions, file.deletions)
    } else {
        String::new()
    }
}

/// The second line a directory's diff pane shows: how many files are
/// under it and the lines they gained and lost.
pub open spec fn directory_summary_text(files: nat, additions: nat, deletions: nat) -> Seq<char> {
    decimal_text(files) + if files == 1 { " file,"@ } else { " files,"@ } + sums_text(
        additions,
        deletions,
    )
}

/// How many files are under a directory, and the lines they gained and
/// lost: `3 files, +3 −2`.
pub fn directory_summary(files: usize, additions: usize, deletions: usize) -> (text: String)
    ensures
        text@ == directory_summary_text(files as nat, additions as nat, deletions as nat),
{
    let mut text = decimal(files);
    text.append(if files == 1 { " file," } else { " files," });
    text.append(sums(additions, deletions).as_str());
    text
}

/// A list's heading: its name, with how many files it has when it has
/// any.
pub open spec fn list_title_text(list: List, count: nat) -> Seq<char> {
    let name = match list {
        List::Unstaged => "Unstaged changes"@,
        List::Staged => "Staged changes"@,
    };
    if count > 0 {
        name + " ("@ + decimal_text(count) + ")"@
    } else {
        name
    }
}

/// A list's heading.
pub fn list_title(list: List, count: usize) -> (title: String)
    ensures
        title@ == list_title_text(list, count as nat),
{
    let mut title = String::from_str(
        match list {
            List::Unstaged => "Unstaged changes",
            List::Staged => "Staged changes",
        },
    );
    if count > 0 {
        title.append(" (");
        title.append(decimal(count).as_str());
        title.append(")");
    }
    title
}


/// A directory's row in a list: its arrow (folded or open) and label.
pub open spec fn dir_label_text(collapsed: bool, label: Seq<char>) -> Seq<char> {
    (if collapsed { "▸ "@ } else { "▾ "@ }) + label
}

/// A directory's row in a list.
pub fn dir_label(collapsed: bool, label: &str) -> (text: String)
    ensures
        text@ == dir_label_text(collapsed, label@),
{
    String::from_str(if collapsed {
        "▸ "
    } else {
        "▾ "
    }).concat(label)
}

/// The sums of what is under a directory, at its row's right edge:
/// nothing when nothing was gained or lost.
pub fn dir_counts(additions: usize, deletions: usize) -> (text: String)
    ensures
        text@ == (if additions + deletions > 0 {
            sums_text(additions as nat, deletions as nat)
        } else {
            Seq::<char>::empty()
        }),
{
    if additions > 0 || deletions > 0 {
        sums(additions, deletions)
    } else {
        String::new()
    }
}

/// The lines gained and lost by all of `counts`, each a file's; the
/// largest `usize` where a sum is larger.
pub open spec fn sum_counts(counts: Seq<(usize, usize)>) -> (nat, nat)
    decreases counts.len(),
{
    if counts.len() == 0 {
        (0, 0)
    } else {
        let (a, d) = sum_counts(counts.drop_last());
        (a + counts.last().0 as nat, d + counts.last().1 as nat)
    }
}

/// A sum, or the largest `usize` where it is larger.
pub open spec fn capped(n: nat) -> usize {
    if n <= usize::MAX { n as usize } else { usize::MAX }
}

/// The lines gained and lost by the files under a directory.
pub fn total_counts(counts: &[(usize, usize)]) -> (total: (usize, usize))
    ensures
        total == (capped(sum_counts(counts@).0), capped(sum_counts(counts@).1)),
{
    let mut a: usize = 0;
    let mut d: usize = 0;
    let mut i: usize = 0;
    while i < counts.len()
        invariant
            i <= counts@.len(),
            a == capped(sum_counts(counts@.take(i as int)).0),
            d == capped(sum_counts(counts@.take(i as int)).1),
        decreases counts@.len() - i,
    {
        proof {
            assert(counts@.take(i as int + 1).drop_last() =~= counts@.take(i as int));
        }
        a = a.saturating_add(counts[i].0);
        d = d.saturating_add(counts[i].1);
        i = i + 1;
    }
    proof {
        assert(counts@.take(counts@.len() as int) =~= counts@);
    }
    (a, d)
}

/// The part of a path after its last slash: the file's name.
pub open spec fn last_segment(path: Seq<char>) -> Seq<char> {
    if exists|i: int| 0 <= i < path.len() && path[i] == '/' {
        let i = choose|i: int|
            0 <= i < path.len() && path[i] == '/' && forall|j: int| i < j < path.len() ==> path[j] != '/';
        path.subrange(i + 1, path.len() as int)
    } else {
        path
    }
}

/// A file's row in a list: its name, and the path it was renamed or
/// copied from, if it was.
pub open spec fn file_label_text(path: Seq<char>, old_path: Option<Seq<char>>) -> Seq<char> {
    match old_path {
        Some(old) => last_segment(path) + " (from "@ + old + ")"@,
        None => last_segment(path),
    }
}

/// A file's row in a list.
pub fn file_label(path: &str, old_path: Option<&str>) -> (text: String)
    ensures
        text@ == file_label_text(
            path@,
            match old_path {
                Some(o) => Some(o@),
                None => None,
            },
        ),
{
    let n = path.unicode_len();
    let mut start: usize = n;
    while start > 0 && path.get_char(start - 1) != '/'
        invariant
            n == path@.len(),
            start <= n,
            forall|j: int| start <= j < n ==> path@[j] != '/',
        decreases start,
    {
        start = start - 1;
    }
    proof {
        if start > 0 {
            let i = start - 1;
            let k = choose|k: int|
                0 <= k < path@.len() && path@[k] == '/' && forall|j: int|
                    k < j < path@.len() ==> path@[j] != '/';
            assert(k == i) by {
                if k < i {
                    assert(path@[i] == '/');
                }
            }
        } else {
            assert(path@.subrange(0, n as int) =~= path@);
        }
    }
    let name = path.substring_char(start, n);
    match old_path {
        Some(old) => {
            let mut text = String::from_str(name);
            text.append(" (from ");
            text.append(old);
            text.append(")");
            text
        },
        None => String::from_str(name),
    }
}

/// What an empty list says: that the scan is still going, or `none`.
pub fn empty_note(scanning: bool) -> (text: &'static str)
    ensures
        text@ == (if scanning { "scanning…"@ } else { "none"@ }),
{
    if scanning {
        "scanning…"
    } else {
        "none"
    }
}

// ----- Moving between the lists ------------------------------------------------

/// The selection in one of the file lists: which row, of how many.
#[derive(Clone, Copy, Debug, PartialEq, Eq, Structural)]
pub struct Cursor {
    pub selected: usize,
    pub rows: usize,
    /// Whether the next render should scroll the list to show the
    /// selection, after it moved.
    pub reveal: bool,
}

/// The row a selection of `index` lands on in a list of `rows` rows:
/// `index`, or the last row when past it.
pub open spec fn row_for(index: int, rows: int) -> int {
    let last = if rows > 0 { rows - 1 } else { 0 };
    if index < last { index } else { last }
}

impl Cursor {
    /// The selection is on a row, or at the top of an empty list.
    pub open spec fn valid(self) -> bool {
        self.selected == 0 || self.selected < self.rows
    }

    /// Select a row, or the last one when `index` is past it, and have
    /// it shown.
    pub fn select(&mut self, index: usize)
        ensures
            final(self).selected == row_for(index as int, old(self).rows as int),
            final(self).rows == old(self).rows,
            final(self).reveal,
            final(self).valid(),
    {
        self.selected = index.min(self.rows.saturating_sub(1));
        self.reveal = true;
    }
}

/// Where the keyboard is on the changes page, and the selection in each
/// list.
#[derive(Clone, Copy, Debug, PartialEq, Eq, Structural)]
pub struct Navigation {
    pub pane: Pane,
    /// The list the diff follows: the one last moved in.
    pub list: List,
    pub unstaged: Cursor,
    pub staged: Cursor,
    /// Whether the commit box is drawn: the page is tall enough.
    pub has_commit_box: bool,
}

impl Navigation {
    /// Both selections are on rows.
    pub open spec fn valid(self) -> bool {
        self.unstaged.valid() && self.staged.valid()
    }

    pub open spec fn cursor(self, list: List) -> Cursor {
        match list {
            List::Unstaged => self.unstaged,
            List::Staged => self.staged,
        }
    }

    /// The pane Tab (or Shift+Tab) moves the keyboard to: the next (or
    /// previous) one, past the commit box when there is none.
    pub open spec fn tabbed(self, forward: bool) -> Pane {
        let step = if forward { self.pane.after() } else { self.pane.before() };
        if step == Pane::Commit && !self.has_commit_box {
            if forward { step.after() } else { step.before() }
        } else {
            step
        }
    }

    /// Tab, or Shift+Tab: move the keyboard round the panes.
    pub fn tab(&mut self, forward: bool)
        ensures
            *final(self) == (Navigation { pane: old(self).tabbed(forward), ..*old(self) }),
    {
        let step = if forward { self.pane.next() } else { self.pane.previous() };
        self.pane = if step == Pane::Commit && !self.has_commit_box {
            if forward { step.next() } else { step.previous() }
        } else {
            step
        };
    }

    /// Select a row of a list, and make it the list the diff follows.
    fn select(&mut self, list: List, index: usize)
        requires
            old(self).valid(),
        ensures
            final(self).valid(),
            final(self).list == list,
            final(self).pane == old(self).pane,
            final(self).has_commit_box == old(self).has_commit_box,
            final(self).cursor(list).selected == row_for(index as int, old(self).cursor(list).rows as int),
            final(self).cursor(list).rows == old(self).cursor(list).rows,
            final(self).cursor(list).reveal,
            list == List::Unstaged ==> final(self).staged == old(self).staged,
            list == List::Staged ==> final(self).unstaged == old(self).unstaged,
    {
        self.list = list;
        match list {
            List::Unstaged => self.unstaged.select(index),
            List::Staged => self.staged.select(index),
        }
    }

    /// A key that moves the selection in a list: ↑ and ↓ by a row,
    /// running on from the end of the unstaged list into the staged one
    /// and from there into the commit box (and back up again); Page Up
    /// and Page Down by `page` rows; Home and End to the ends. Moving in
    /// a list makes it the one the diff follows, even at its ends.
    /// Returns whether the key was one of these.
    pub fn move_in_list(&mut self, list: List, code: crate::input::KeyCode, page: usize) -> (moved: bool)
        requires
            old(self).valid(),
        ensures
            final(self).valid(),
            final(self).has_commit_box == old(self).has_commit_box,
            ({
                let before = old(self).cursor(list);
                let here = Navigation { list, ..*old(self) };
                match code {
                    crate::input::KeyCode::Up => moved && if before.selected == 0 || before.rows == 0 {
                        if list == List::Staged && old(self).unstaged.rows > 0 {
                            *final(self) == (Navigation {
                                pane: Pane::Unstaged,
                                list: List::Unstaged,
                                unstaged: Cursor {
                                    selected: (old(self).unstaged.rows - 1) as usize,
                                    rows: old(self).unstaged.rows,
                                    reveal: true,
                                },
                                ..*old(self)
                            })
                        } else {
                            *final(self) == here
                        }
                    } else {
                        final(self).list == list && final(self).pane == old(self).pane
                            && final(self).cursor(list).selected == before.selected - 1
                    },
                    crate::input::KeyCode::Down => moved && if before.selected + 1 >= before.rows {
                        if list == List::Unstaged && old(self).staged.rows > 0 {
                            *final(self) == (Navigation {
                                pane: Pane::Staged,
                                list: List::Staged,
                                staged: Cursor { selected: 0, rows: old(self).staged.rows, reveal: true },
                                ..*old(self)
                            })
                        } else if old(self).has_commit_box {
                            *final(self) == (Navigation { pane: Pane::Commit, ..here })
                        } else {
                            *final(self) == here
                        }
                    } else {
                        final(self).list == list && final(self).pane == old(self).pane
                            && final(self).cursor(list).selected == before.selected + 1
                    },
                    crate::input::KeyCode::PageUp => moved && final(self).list == list
                        && final(self).pane == old(self).pane && final(self).cursor(list).selected
                        == (if before.selected > page { before.selected - page } else { 0 }),
                    crate::input::KeyCode::PageDown => moved && final(self).list == list
                        && final(self).pane == old(self).pane && final(self).cursor(list).selected
                        == row_for(before.selected + page, before.rows as int),
                    crate::input::KeyCode::Home => moved && final(self).list == list
                        && final(self).pane == old(self).pane && final(self).cursor(list).selected
                        == 0,
                    crate::input::KeyCode::End => moved && final(self).list == list
                        && final(self).pane == old(self).pane && final(self).cursor(list).selected
                        == row_for(usize::MAX as int, before.rows as int),
                    _ => !moved && *final(self) == here,
                }
            }),
    {
        let (selected, rows) = match list {
            List::Unstaged => (self.unstaged.selected, self.unstaged.rows),
            List::Staged => (self.staged.selected, self.staged.rows),
        };
        self.list = list;
        match code {
            crate::input::KeyCode::Up => {
                if selected == 0 || rows == 0 {
                    if list == List::Staged && self.unstaged.rows > 0 {
                        self.pane = Pane::Unstaged;
                        self.select(List::Unstaged, usize::MAX);
                    }
                } else {
                    self.select(list, selected - 1);
                }
                true
            },
            crate::input::KeyCode::Down => {
                if selected >= rows || rows - selected <= 1 {
                    if list == List::Unstaged && self.staged.rows > 0 {
                        self.pane = Pane::Staged;
                        self.select(List::Staged, 0);
                    } else if self.has_commit_box {
                        self.pane = Pane::Commit;
                    }
                } else {
                    self.select(list, selected + 1);
                }
                true
            },
            crate::input::KeyCode::PageUp => {
                self.select(list, selected.saturating_sub(page));
                true
            },
            crate::input::KeyCode::PageDown => {
                self.select(list, selected.saturating_add(page));
                true
            },
            crate::input::KeyCode::Home => {
                self.select(list, 0);
                true
            },
            crate::input::KeyCode::End => {
                self.select(list, usize::MAX);
                true
            },
            _ => false,
        }
    }
}

// ----- The commit message the page offers ----------------------------------------


/// Text the page put in the commit message itself (a merge's prepared
/// message, the amended commit's), which it may replace or clear again
/// while the user hasn't changed it.
#[derive(Debug)]
pub struct OfferedMessage {
    pub auto: Option<String>,
}

/// The text an offer leaves in the message box: the offered text when
/// the box is untouched (blank, or still as the page last offered it)
/// and doesn't already hold this offer.
pub open spec fn offer_taken(current: Seq<char>, auto: Option<Seq<char>>, text: Seq<char>) -> bool {
    (is_blank_text(current) || auto == Some(current)) && auto != Some(text)
}

/// Whether withdrawing the page's text empties the box holding
/// `current`: it does when the box still holds that text as offered.
pub open spec fn withdraw_clears(auto: Option<Seq<char>>, current: Seq<char>) -> bool {
    auto == Some(current)
}

/// The text of an optional string.
pub open spec fn view_of(text: Option<String>) -> Option<Seq<char>> {
    match text {
        Some(t) => Some(t@),
        None => None,
    }
}

impl OfferedMessage {
    /// Put `text` in the message box on the page's own account, unless
    /// the user has written something else there. Returns the text the
    /// box is to hold now, if it changes.
    pub fn offer(&mut self, current: &String, text: String) -> (put: Option<String>)
        ensures
            offer_taken(current@, view_of(old(self).auto), text@) ==> put is Some && put.unwrap()@
                == text@ && view_of(final(self).auto) == Some(text@),
            !offer_taken(current@, view_of(old(self).auto), text@) ==> put is None && view_of(
                final(self).auto,
            ) == view_of(old(self).auto),
    {
        let untouched = is_blank(current.as_str()) || match &self.auto {
            Some(auto) => *auto == *current,
            None => false,
        };
        let repeated = match &self.auto {
            Some(auto) => *auto == text,
            None => false,
        };
        if untouched && !repeated {
            self.auto = Some(text.clone());
            Some(text)
        } else {
            None
        }
    }

    /// Take back the text the page put in the message box: returns
    /// whether the box is to be emptied, which it is when it still holds
    /// that text as offered. Either way the page no longer has text of
    /// its own there.
    pub fn withdraw(&mut self, current: &String) -> (clear: bool)
        ensures
            clear == withdraw_clears(view_of(old(self).auto), current@),
            final(self).auto is None,
    {
        let clear = match &self.auto {
            Some(auto) => *auto == *current,
            None => false,
        };
        self.auto = None;
        clear
    }
}

/// An offer taken into a blank box is taken back whole: withdrawing it
/// before the user touches it empties the box again. Once the user has
/// written something else there, withdrawing leaves their text alone.
pub proof fn an_untouched_offer_is_withdrawn_whole(
    current: Seq<char>,
    auto: Option<Seq<char>>,
    text: Seq<char>,
    edited: Seq<char>,
)
    requires
        is_blank_text(current),
        auto != Some(text),
        edited != text,
    ensures
        offer_taken(current, auto, text),
        withdraw_clears(Some(text), text),
        !withdraw_clears(Some(text), edited),
{
}

} // verus!
