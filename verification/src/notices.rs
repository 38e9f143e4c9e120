//! What the status bar says about the open files and what was done with
//! them, and the entries the palettes list for running targets: the
//! application's own words, separate from the doing.

use crate::text::{decimal, decimal_text};
use vstd::prelude::*;

verus! {

/// How often the open files are checked for changes on disk when
/// nothing hints that they changed, in nanoseconds: the most a change
/// made outside the project's watched tree takes to show up.
pub const FILE_CHECK_NANOS: u128 = 2_000_000_000u128;

/// Whether the open files are due a check: there was activity in the
/// project's files since the last, there was none yet, or the last was
/// long enough ago.
pub fn check_due(hinted: bool, since_last: Option<u128>) -> (due: bool)
    ensures
        due == (hinted || match since_last {
            Some(n) => n >= FILE_CHECK_NANOS,
            None => true,
        }),
{
    hinted || match since_last {
        Some(n) => n >= FILE_CHECK_NANOS,
        None => true,
    }
}

/// What a check of an open file found on disk.
#[derive(Clone, Debug, PartialEq, Eq)]
pub enum DiskChange {
    /// Nothing changed.
    Unchanged,
    /// The file changed and had no unsaved changes: it was read again.
    Reloaded,
    /// Its changes were merged with the unsaved ones.
    Merged,
    /// They conflict with the unsaved ones, and the conflicts are marked.
    Conflicted,
    /// They can't be merged with the unsaved ones.
    Unmerged,
    Deleted,
    /// The file couldn't be read, for this reason.
    Failed(String),
}

/// What the status bar says about a file titled `title` after a check.
pub open spec fn disk_change_text(title: Seq<char>, change: DiskChange) -> Option<Seq<char>> {
    match change {
        DiskChange::Unchanged => None,
        DiskChange::Reloaded => Some(title + " changed on disk: reloaded"@),
        DiskChange::Merged => Some(
            title + " changed on disk: merged with unsaved changes (undo to keep yours)"@,
        ),
        DiskChange::Conflicted => Some(
            title + " changed on disk: conflicts with unsaved changes are marked"@,
        ),
        DiskChange::Unmerged => Some(
            title
                + " changed on disk but can't be merged with unsaved changes: saving will overwrite it"@,
        ),
        DiskChange::Deleted => Some(title + " was deleted on disk: save to recreate it"@),
        DiskChange::Failed(why) => Some("Could not read "@ + title + ": "@ + why@),
    }
}

/// What the status bar says about a file titled `title` after a check.
pub fn disk_change_notice(title: &str, change: &DiskChange) -> (notice: Option<String>)
    ensures
        match notice {
            Some(n) => disk_change_text(title@, *change) == Some(n@),
            None => disk_change_text(title@, *change) is None,
        },
{
    let tail = match change {
        DiskChange::Unchanged => {
            return None;
        },
        DiskChange::Reloaded => " changed on disk: reloaded",
        DiskChange::Merged => " changed on disk: merged with unsaved changes (undo to keep yours)",
        DiskChange::Conflicted => " changed on disk: conflicts with unsaved changes are marked",
        DiskChange::Unmerged =>
            " changed on disk but can't be merged with unsaved changes: saving will overwrite it",
        DiskChange::Deleted => " was deleted on disk: save to recreate it",
        DiskChange::Failed(why) => {
            let mut text = String::from_str("Could not read ");
            text.append(title);
            text.append(": ");
            text.append(why.as_str());
            return Some(text);
        },
    };
    Some(String::from_str(title).concat(tail))
}

/// What the status bar says after saving a file titled `title`: saved,
/// or why it couldn't be.
pub fn save_notice(title: &str, error: Option<&str>) -> (notice: String)
    ensures
        notice@ == match error {
            None => "Saved "@ + title@,
            Some(e) => "Could not save "@ + title@ + ": "@ + e@,
        },
{
    match error {
        None => String::from_str("Saved ").concat(title),
        Some(e) => {
            let mut text = String::from_str("Could not save ");
            text.append(title);
            text.append(": ");
            text.append(e);
            text
        },
    }
}

/// How reading a file back over its unsaved edits went.
#[derive(Clone, Debug, PartialEq, Eq)]
pub enum Discarded {
    /// The edits were thrown away; undo brings them back.
    Discarded,
    /// There were none.
    Unmodified,
    /// The file couldn't be read, for this reason.
    Failed(String),
}

/// What the status bar says after discarding a file's unsaved changes.
pub fn discard_notice(title: &str, result: &Discarded) -> (notice: String)
    ensures
        notice@ == match *result {
            Discarded::Discarded => "Discarded unsaved changes to "@ + title@
                + " (undo brings them back)"@,
            Discarded::Unmodified => title@ + " has no unsaved changes"@,
            Discarded::Failed(e) => "Could not reload "@ + title@ + ": "@ + e@,
        },
{
    match result {
        Discarded::Discarded => {
            let mut text = String::from_str("Discarded unsaved changes to ");
            text.append(title);
            text.append(" (undo brings them back)");
            text
        },
        Discarded::Unmodified => String::from_str(title).concat(" has no unsaved changes"),
        Discarded::Failed(e) => {
            let mut text = String::from_str("Could not reload ");
            text.append(title);
            text.append(": ");
            text.append(e.as_str());
            text
        },
    }
}

/// What the status bar says after a drag copied `lines` lines of a
/// tool's text.
pub fn copied_notice(lines: usize) -> (notice: String)
    ensures
        notice@ == (if lines == 1 {
            "Copied 1 line to the clipboard"@
        } else {
            "Copied "@ + decimal_text(lines as nat) + " lines to the clipboard"@
        }),
{
    if lines == 1 {
        String::from_str("Copied 1 line to the clipboard")
    } else {
        let mut text = String::from_str("Copied ");
        text.append(decimal(lines).as_str());
        text.append(" lines to the clipboard");
        text
    }
}

/// The command palette's entry to run a target that isn't the current
/// one: its label, what it says, and what a query is matched against.
pub struct RunEntry {
    pub label: String,
    pub detail: String,
    pub search: String,
}

/// What a "Run" entry says: that it builds and runs the target (with the
/// configuration it would run with, when there is one) in its root,
/// leaving the current target alone.
pub open spec fn run_detail_text(configuration: Option<Seq<char>>, root: Seq<char>) -> Seq<char> {
    "Build and run it"@ + match configuration {
        Some(c) => " with "@ + c,
        None => Seq::empty(),
    } + " in "@ + root + ", without making it the current target"@
}

/// The command palette's entry to run the target `name` of the root
/// labelled `root`, with `configuration`.
pub fn run_entry(name: &str, configuration: Option<&str>, root: &str) -> (entry: RunEntry)
    ensures
        entry.label@ == "Run "@ + name@,
        entry.detail@ == run_detail_text(
            match configuration {
                Some(c) => Some(c@),
                None => None,
            },
            root@,
        ),
        entry.search@ == "Run "@ + name@ + " "@ + entry.detail@,
{
    let mut detail = String::from_str("Build and run it");
    if let Some(c) = configuration {
        detail.append(" with ");
        detail.append(c);
    }
    detail.append(" in ");
    detail.append(root);
    detail.append(", without making it the current target");
    let label = String::from_str("Run ").concat(name);
    let mut search = String::from_str("Run ");
    search.append(name);
    search.append(" ");
    search.append(detail.as_str());
    RunEntry { label, detail, search }
}

/// What a palette entry naming `name` in the root labelled `root` is
/// matched against: both.
pub fn entry_search(name: &str, root: &str) -> (search: String)
    ensures
        search@ == name@ + " "@ + root@,
{
    let mut search = String::from_str(name);
    search.append(" ");
    search.append(root);
    search
}

} // verus!
