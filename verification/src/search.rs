//! What the application says about searches and conflicts, and how a
//! search is seeded: the search box's hint, the notices of Ctrl+G and of
//! stepping between merge conflicts, and which selection a search starts
//! from.

use crate::text::{decimal, decimal_text};
use vstd::prelude::*;

verus! {

/// What the status bar says when a search wrapped around.
pub const SEARCH_WRAPPED: &'static str = "Search wrapped around to where it started; press Ctrl+G to go around again";

/// What a search has found so far.
#[derive(Clone, Copy, Debug, PartialEq, Eq, Structural)]
pub struct SearchState {
    /// The query is a regular expression.
    pub regex: bool,
    /// The matches found so far.
    pub count: usize,
    /// The search has looked through the whole file.
    pub done: bool,
}

/// How many matches there are, in words.
pub open spec fn found_text(count: nat, done: bool) -> Seq<char> {
    if !done {
        "searching… "@ + decimal_text(count) + " so far"@
    } else if count == 0 {
        "no matches"@
    } else if count == 1 {
        "1 match"@
    } else {
        decimal_text(count) + " matches"@
    }
}

/// What the search box's bottom border says: nothing for an empty
/// query, why a regular expression is invalid, or how many matches were
/// found (so far, while searching), after `regex, ` for a regular
/// expression.
pub open spec fn hint_text(query_empty: bool, error: Option<Seq<char>>, state: SearchState) -> Option<Seq<char>> {
    if query_empty {
        None
    } else {
        match error {
            Some(e) => Some("invalid regex: "@ + e),
            None => Some(
                (if state.regex { "regex, "@ } else { Seq::empty() }) + found_text(
                    state.count as nat,
                    state.done,
                ),
            ),
        }
    }
}

/// What the search box's bottom border says.
pub fn search_hint(query_empty: bool, error: Option<&str>, state: SearchState) -> (hint: Option<String>)
    ensures
        match hint {
            Some(h) => hint_text(
                query_empty,
                match error {
                    Some(e) => Some(e@),
                    None => None,
                },
                state,
            ) == Some(h@),
            None => hint_text(
                query_empty,
                match error {
                    Some(e) => Some(e@),
                    None => None,
                },
                state,
            ) is None,
        },
{
    if query_empty {
        return None;
    }
    if let Some(e) = error {
        return Some(String::from_str("invalid regex: ").concat(e));
    }
    let mut text = String::from_str(if state.regex {
        "regex, "
    } else {
        ""
    });
    proof {
        reveal_strlit("");
    }
    if !state.done {
        text.append("searching… ");
        text.append(decimal(state.count).as_str());
        text.append(" so far");
    } else if state.count == 0 {
        text.append("no matches");
    } else if state.count == 1 {
        text.append("1 match");
    } else {
        text.append(decimal(state.count).as_str());
        text.append(" matches");
    }
    Some(text)
}

/// How a step to the next or previous merge conflict went.
#[derive(Clone, Copy, Debug, PartialEq, Eq, Structural)]
pub enum ConflictStep {
    Moved,
    /// It went round the end of the file to the other end.
    Wrapped,
    NoConflicts,
}

/// What the status bar says after a step between conflicts, and whether
/// the editor takes the keyboard so the jump can be seen (it does unless
/// there was nothing to go to).
pub fn conflict_notice(step: ConflictStep, forward: bool) -> (notice: (Option<String>, bool))
    ensures
        match step {
            ConflictStep::Moved => notice.0 is None && notice.1,
            ConflictStep::Wrapped => notice.0 matches Some(t) && t@ == "Wrapped around to the "@
                + (if forward { "first"@ } else { "last"@ }) + " conflict in the file"@ && notice.1,
            ConflictStep::NoConflicts => notice.0 matches Some(t) && t@
                == "No merge conflicts in this file"@ && !notice.1,
        },
{
    match step {
        ConflictStep::Moved => (None, true),
        ConflictStep::Wrapped => {
            let mut text = String::from_str("Wrapped around to the ");
            text.append(if forward {
                "first"
            } else {
                "last"
            });
            text.append(" conflict in the file");
            (Some(text), true)
        },
        ConflictStep::NoConflicts => (Some(String::from_str("No merge conflicts in this file")), false),
    }
}

/// What Ctrl+G does with no search going.
#[derive(Clone, Debug, PartialEq, Eq)]
pub enum FindNext {
    /// Step the search going on to its next match.
    Step,
    /// Nothing was searched for yet: open the search box.
    OpenBox,
    /// Search again for the last query, from the cursor.
    Repeat(String),
}

/// What Ctrl+G does: step the search going, or search again for the
/// last query, or with none yet open the search box.
pub fn find_next(searching: bool, last: &String) -> (action: FindNext)
    ensures
        searching ==> action == FindNext::Step,
        !searching && last@.len() == 0 ==> action == FindNext::OpenBox,
        !searching && last@.len() > 0 ==> (action matches FindNext::Repeat(q) && q@ == last@),
{
    if searching {
        FindNext::Step
    } else if last.unicode_len() == 0 {
        FindNext::OpenBox
    } else {
        FindNext::Repeat(last.clone())
    }
}

/// What the status bar says when the last query has no matches.
pub fn no_matches(query: &str) -> (text: String)
    ensures
        text@ == "No matches for "@ + query@,
{
    String::from_str("No matches for ").concat(query)
}

/// Whether `text` lies within one line: it holds no line break.
pub open spec fn one_line(text: Seq<char>) -> bool {
    forall|i: int| 0 <= i < text.len() ==> text[i] != '\n' && text[i] != '\r'
}

/// Whether `text` holds a line break.
fn breaks_line(text: &str) -> (breaks: bool)
    ensures
        breaks == !one_line(text@),
{
    let n = text.unicode_len();
    let mut i: usize = 0;
    while i < n
        invariant
            n == text@.len(),
            i <= n,
            forall|j: int| 0 <= j < i ==> text@[j] != '\n' && text@[j] != '\r',
        decreases n - i,
    {
        let c = text.get_char(i);
        if c == '\n' || c == '\r' {
            return true;
        }
        i = i + 1;
    }
    false
}

/// The selected text, when it lies within one line: what a search opened
/// over it starts out looking for.
pub fn single_line_selection(selected: Option<String>) -> (seed: Option<String>)
    ensures
        match selected {
            Some(t) => if one_line(t@) {
                seed matches Some(s) && s@ == t@
            } else {
                seed is None
            },
            None => seed is None,
        },
{
    match selected {
        Some(t) => if breaks_line(t.as_str()) {
            None
        } else {
            Some(t)
        },
        None => None,
    }
}

/// What Ctrl+F with the search box open searches the project for: the
/// query typed into the box, unless nothing was typed (the box is empty,
/// or still holds the seeded selection), in which case it is Ctrl+Shift+F.
pub fn typed_query(query: String, seed: Option<&String>) -> (typed: Option<String>)
    ensures
        (query@.len() > 0 && match seed {
            Some(s) => s@ != query@,
            None => true,
        }) ==> (typed matches Some(q) && q@ == query@),
        !(query@.len() > 0 && match seed {
            Some(s) => s@ != query@,
            None => true,
        }) ==> typed is None,
{
    let seeded = match seed {
        Some(s) => s.eq(&query),
        None => false,
    };
    if query.unicode_len() > 0 && !seeded {
        Some(query)
    } else {
        None
    }
}

/// The line a go to line box's number moves to, counting from zero: the
/// number typed counts from one, and zero goes to the first line.
pub fn line_for(typed: usize) -> (line: usize)
    ensures
        line == (if typed > 0 { typed - 1 } else { 0 }),
{
    typed.saturating_sub(1)
}

} // verus!
