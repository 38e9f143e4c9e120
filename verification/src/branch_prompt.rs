//! The branch name box of the git log page: a one-line input floating
//! over the top of the page, into which a name for a new local branch is
//! typed.
//!
//! It opens when a commit is checked out that only a remote's branch
//! points at, and a local branch by that branch's name already exists
//! elsewhere: the new branch that will track the remote's needs another
//! name. The box owns the name and its look. Enter hands the name to the
//! page, which makes the branch; a name git won't take, or one a branch
//! already has, keeps the box open with its hint saying why, until the
//! name changes.

use crate::geometry::{framed_inside, inside_frame, Rect};
use crate::input::{Key, KeyCode};
use crate::text::{trim, trimmed};
use vstd::prelude::*;

verus! {

/// The box's height, border included.
pub const HEIGHT: u16 = 3;

/// The narrowest the box is drawn.
pub const MIN_WIDTH: u16 = 10;

/// What the page should do after the box handled a key.
#[derive(Clone, Debug, PartialEq, Eq)]
pub enum BranchPromptOutcome {
    /// Keep the box open.
    Continue,
    /// Escape: close the box, checking nothing out.
    Close,
    /// Enter: make the branch by the name given.
    Accept(String),
}

/// The hint the box's border shows: why the last name was refused, or
/// else why a name is asked for.
pub open spec fn hint_of(refused: Option<Seq<char>>, taken: Seq<char>, upstream: Seq<char>) -> Seq<char> {
    match refused {
        Some(why) => why,
        None => "branch "@ + taken + " exists · new branch will track "@ + upstream,
    }
}

/// The reason for a refusal after the name went from `before` to
/// `after`: it lasts until the name changes.
pub open spec fn refusal_after_edit(refused: Option<Seq<char>>, before: Seq<char>, after: Seq<char>) -> Option<Seq<char>> {
    if after == before {
        refused
    } else {
        None
    }
}

/// Where the box goes over `page`, at most `max_width` wide, and where
/// its input row is inside it: none when the page is too small.
pub open spec fn prompt_area(page: Rect, max_width: u16) -> Rect {
    let room = if page.width >= 2 { page.width - 2 } else { 0 };
    let width = if max_width < room { max_width as int } else { room };
    if width < MIN_WIDTH || page.height < HEIGHT + 1 {
        Rect::zero()
    } else {
        Rect::at((page.x + (page.width - width) / 2) as u16, (page.y + 1) as u16, width as u16, HEIGHT)
    }
}

/// The row the name is typed in: the first inside the box's border.
pub open spec fn input_row(area: Rect) -> Option<Rect> {
    let inner = framed_inside(area);
    if area.width == 0 || inner.height == 0 {
        None
    } else {
        Some(Rect::at(inner.x, inner.y, inner.width, 1))
    }
}

/// The branch name box. `Id` is how the page names the commit to check
/// out.
pub struct BranchPrompt<Id> {
    /// The name as typed so far.
    text: String,
    /// The commit to check out once the branch is named.
    pub id: Id,
    /// The remote's branch the new one is to track, as `origin/feature`.
    pub upstream: String,
    /// The local branch whose name is taken, which is why a name is
    /// asked for.
    taken: String,
    /// Why the last name given was refused, shown in the bottom border
    /// until the name changes.
    refused: Option<String>,
    /// The whole box, including its border, from the last layout.
    area: Rect,
}

impl<Id> BranchPrompt<Id> {
    /// The name as typed so far, untrimmed.
    pub closed spec fn text_of(&self) -> Seq<char> {
        self.text@
    }

    /// The commit to check out.
    pub closed spec fn id_of(&self) -> Id {
        self.id
    }

    /// The remote's branch the new one is to track.
    pub closed spec fn upstream_of(&self) -> Seq<char> {
        self.upstream@
    }

    /// The local branch whose name is taken.
    pub closed spec fn taken_of(&self) -> Seq<char> {
        self.taken@
    }

    /// Why the last name was refused, while it is still shown.
    pub closed spec fn refused_of(&self) -> Option<Seq<char>> {
        match self.refused {
            Some(why) => Some(why@),
            None => None,
        }
    }

    /// Where the box was last laid out.
    pub closed spec fn area_of(&self) -> Rect {
        self.area
    }

    /// A box for a branch to track `upstream`, the name of `taken` being
    /// taken already; empty, with nothing refused.
    pub fn new(id: Id, upstream: String, taken: String) -> (prompt: BranchPrompt<Id>)
        ensures
            prompt.id_of() == id,
            prompt.upstream_of() == upstream@,
            prompt.taken_of() == taken@,
            prompt.text_of() == Seq::<char>::empty(),
            prompt.refused_of() is None,
            prompt.area_of() == Rect::zero(),
    {
        BranchPrompt {
            text: String::new(),
            id,
            upstream,
            taken,
            refused: None,
            area: Rect { x: 0, y: 0, width: 0, height: 0 },
        }
    }

    /// The name typed so far, trimmed.
    pub fn name(&self) -> (name: &str)
        ensures
            name@ == trimmed(self.text_of()),
    {
        trim(self.text.as_str())
    }

    /// Say why the name given was refused; the box stays open.
    pub fn refuse(&mut self, why: String)
        ensures
            final(self).refused_of() == Some(why@),
            final(self).text_of() == old(self).text_of(),
            final(self).taken_of() == old(self).taken_of(),
            final(self).upstream_of() == old(self).upstream_of(),
            final(self).area_of() == old(self).area_of(),
    {
        self.refused = Some(why);
    }

    /// A key for the box: Escape closes it and Enter gives the name,
    /// trimmed. Any other key belongs to the name's input, which the
    /// caller hands it to, reporting the name after with [`Self::edit`].
    pub fn handle_key(&mut self, key: Key) -> (outcome: BranchPromptOutcome)
        ensures
            final(self).text_of() == old(self).text_of(),
            final(self).refused_of() == old(self).refused_of(),
            final(self).area_of() == old(self).area_of(),
            key.code == KeyCode::Esc ==> outcome == BranchPromptOutcome::Close,
            key.code == KeyCode::Enter ==> (outcome matches BranchPromptOutcome::Accept(name)
                && name@ == trimmed(old(self).text_of())),
            key.code != KeyCode::Esc && key.code != KeyCode::Enter ==> outcome
                == BranchPromptOutcome::Continue,
    {
        match key.code {
            KeyCode::Esc => BranchPromptOutcome::Close,
            KeyCode::Enter => BranchPromptOutcome::Accept(String::from_str(self.name())),
            _ => BranchPromptOutcome::Continue,
        }
    }

    /// The name's input now holds `text`, typed or pasted: a refusal is
    /// no longer shown once the name changed.
    pub fn edit(&mut self, text: String)
        ensures
            final(self).text_of() == text@,
            final(self).refused_of() == refusal_after_edit(
                old(self).refused_of(),
                old(self).text_of(),
                text@,
            ),
            final(self).taken_of() == old(self).taken_of(),
            final(self).upstream_of() == old(self).upstream_of(),
            final(self).area_of() == old(self).area_of(),
    {
        let same = self.text.eq(&text);
        if !same {
            self.refused = None;
        }
        self.text = text;
    }

    /// What the box's border says.
    pub fn hint(&self) -> (hint: String)
        ensures
            hint@ == hint_of(self.refused_of(), self.taken_of(), self.upstream_of()),
    {
        match &self.refused {
            Some(why) => why.clone(),
            None => {
                let mut text = String::from_str("branch ");
                text.append(self.taken.as_str());
                text.append(" exists · new branch will track ");
                text.append(self.upstream.as_str());
                text
            },
        }
    }

    /// Whether the cell at `(x, y)` is over the box.
    pub fn contains(&self, x: u16, y: u16) -> (over: bool)
        ensures
            over == self.area_of().holds(x as int, y as int),
    {
        self.area.contains(x, y)
    }

    /// Place the box over the top center of `page`, at most `max_width`
    /// wide. Returns the row the name is typed in, or none when the page
    /// has no room for the box.
    pub fn layout(&mut self, page: Rect, max_width: u16) -> (row: Option<Rect>)
        requires
            page.wf(),
        ensures
            final(self).area_of() == prompt_area(page, max_width),
            row == input_row(prompt_area(page, max_width)),
            final(self).text_of() == old(self).text_of(),
            final(self).refused_of() == old(self).refused_of(),
    {
        let room = page.width.saturating_sub(2);
        let width = if max_width < room { max_width } else { room };
        if width < MIN_WIDTH || page.height < HEIGHT + 1 {
            self.area = Rect { x: 0, y: 0, width: 0, height: 0 };
            return None;
        }
        let x = page.x + (page.width - width) / 2;
        self.area = Rect::new(x, page.y + 1, width, HEIGHT);
        let inner = inside_frame(self.area);
        if self.area.width == 0 || inner.height == 0 {
            return None;
        }
        Some(Rect::new(inner.x, inner.y, inner.width, 1))
    }
}

/// A refused name's reason shows in place of the hint until the name
/// changes: edits that leave the name as it was keep it, and any change
/// brings back the hint that says why a name is asked for.
pub proof fn a_refusal_shows_until_the_name_changes(
    why: Seq<char>,
    name: Seq<char>,
    changed: Seq<char>,
    taken: Seq<char>,
    upstream: Seq<char>,
)
    requires
        changed != name,
    ensures
        hint_of(Some(why), taken, upstream) == why,
        refusal_after_edit(Some(why), name, name) == Some(why),
        hint_of(refusal_after_edit(Some(why), name, changed), taken, upstream)
            == "branch "@ + taken + " exists · new branch will track "@ + upstream,
{
}

} // verus!
