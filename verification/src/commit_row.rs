//! A commit's row as the git log draws it, for the log itself and for
//! the diff of a submodule, which is a graph of the submodule's commits
//! drawn the same way.
//!
//! A commit takes two lines: the node line, with the references and the
//! message beside the commit's node, and the transition line below,
//! with the author, id, and time. The graph gets at most a share of the
//! width. The commit HEAD is on (or, for a submodule, the commit the
//! submodule now points at) has its message in the HEAD color, bold. In
//! the log HEAD's commit also says so in words before its references, as
//! `git log --decorate` does: `HEAD → main` when HEAD is on a branch,
//! `HEAD` alone when it is detached.

use crate::text::{span_width, span_width_of};
use vstd::prelude::*;

verus! {

/// The graph takes at most this share of a pane's width.
pub const MAX_GRAPH_SHARE: usize = 3;

/// How a commit stands out among the others of a graph.
#[derive(Clone, Copy, Debug, PartialEq, Eq, Structural)]
pub enum Highlight {
    /// One commit among many.
    Ordinary,
    /// The commit HEAD is on, in the log: its message in the HEAD color,
    /// and `HEAD` said before its references.
    Head,
    /// The commit a submodule now points at, in its diff: drawn as HEAD
    /// is, but not called HEAD, since it isn't.
    Target,
}

impl Highlight {
    /// `Head` when `is_head`, else `Ordinary`.
    pub fn head_if(is_head: bool) -> (highlight: Highlight)
        ensures
            highlight == (if is_head { Highlight::Head } else { Highlight::Ordinary }),
    {
        if is_head {
            Highlight::Head
        } else {
            Highlight::Ordinary
        }
    }

    /// `Target` when `is_target`, else `Ordinary`.
    pub fn target_if(is_target: bool) -> (highlight: Highlight)
        ensures
            highlight == (if is_target { Highlight::Target } else { Highlight::Ordinary }),
    {
        if is_target {
            Highlight::Target
        } else {
            Highlight::Ordinary
        }
    }
}

/// The most lanes a pane `width` columns wide draws: half the graph's
/// share of the width, rounded up, and at least one.
pub open spec fn lanes_for(width: nat) -> nat {
    let share = width / (MAX_GRAPH_SHARE as nat);
    let lanes = (share + 1) / 2;
    if lanes < 1 { 1 } else { lanes }
}

/// How many lanes of the graph a pane `width` columns wide draws, at
/// most.
pub fn lane_cap(width: u16) -> (lanes: usize)
    ensures
        lanes == lanes_for(width as nat),
        lanes >= 1,
{
    let share = width as usize / MAX_GRAPH_SHARE;
    let lanes = share / 2 + share % 2;
    if lanes < 1 {
        1
    } else {
        lanes
    }
}

/// What a reference names.
#[derive(Clone, Copy, Debug, PartialEq, Eq, Structural)]
pub enum RefKind {
    Branch,
    RemoteBranch,
    Tag,
}

/// A reference beside a commit: a branch, a remote's branch, or a tag,
/// and whether HEAD is on it.
#[derive(Clone, Debug)]
pub struct RefLabel {
    pub name: String,
    pub kind: RefKind,
    pub is_head: bool,
}

/// The text of a commit that its row shows.
#[derive(Clone, Debug)]
pub struct CommitText {
    /// The references pointing at the commit, in the order shown.
    pub refs: Vec<RefLabel>,
    /// The first line of the message.
    pub summary: String,
    pub author: String,
    /// The id, abbreviated.
    pub short_id: String,
    /// When the commit was made, as shown.
    pub time: String,
}

/// What a piece of a commit's row is, which decides its color.
#[derive(Clone, Copy, Debug, PartialEq, Eq, Structural)]
pub enum Role {
    /// In the row's own style: the gaps, and an ordinary message.
    Plain,
    /// `HEAD` said in words, in the HEAD color.
    HeadWords,
    /// A reference's name, bold in its kind's color.
    Reference(RefKind),
    /// The message of the highlighted commit, bold in the HEAD color.
    HighlightedSummary,
    Author,
    Id,
    Date,
}

/// A piece of a line as text and what it is.
pub open spec fn piece_view(piece: (String, Role)) -> (Seq<char>, Role) {
    (piece.0@, piece.1)
}

/// A line of pieces as text and what each is.
pub open spec fn pieces_view(pieces: Seq<(String, Role)>) -> Seq<(Seq<char>, Role)> {
    pieces.map_values(|p: (String, Role)| piece_view(p))
}

/// How a reference's name is shown: a tag's after `tag: `.
pub open spec fn ref_text(name: Seq<char>, kind: RefKind) -> Seq<char> {
    if kind is Tag {
        "tag: "@ + name
    } else {
        name
    }
}

/// A reference's pieces: `HEAD → ` first when HEAD is on it, then its
/// name and a space.
pub open spec fn label_pieces(label: RefLabel) -> Seq<(Seq<char>, Role)> {
    let head: Seq<(Seq<char>, Role)> = if label.is_head {
        seq![("HEAD → "@, Role::HeadWords)]
    } else {
        Seq::empty()
    };
    head.push((ref_text(label.name@, label.kind) + " "@, Role::Reference(label.kind)))
}

/// The pieces of the references, one after another.
pub open spec fn refs_pieces(refs: Seq<RefLabel>) -> Seq<(Seq<char>, Role)>
    decreases refs.len(),
{
    if refs.len() == 0 {
        Seq::empty()
    } else {
        refs_pieces(refs.drop_last()) + label_pieces(refs.last())
    }
}

/// Whether HEAD is on one of the references.
pub open spec fn head_among(refs: Seq<RefLabel>) -> bool {
    exists|i: int| 0 <= i < refs.len() && (#[trigger] refs[i]).is_head
}

/// A commit's node line: `HEAD ` when it is HEAD's commit in the log and
/// no reference says so, the references, a space when anything came
/// before, and the message.
pub open spec fn node_line(commit: CommitText, highlight: Highlight) -> Seq<(Seq<char>, Role)> {
    let lead: Seq<(Seq<char>, Role)> = if highlight is Head && !head_among(commit.refs@) {
        seq![("HEAD "@, Role::HeadWords)]
    } else {
        Seq::empty()
    };
    let before = lead + refs_pieces(commit.refs@);
    let gap: Seq<(Seq<char>, Role)> = if before.len() > 0 {
        seq![(" "@, Role::Plain)]
    } else {
        Seq::empty()
    };
    let summary_role = if highlight is Ordinary {
        Role::Plain
    } else {
        Role::HighlightedSummary
    };
    before + gap + seq![(commit.summary@, summary_role)]
}

/// A commit's transition line: the author, the id, and the time, two
/// spaces apart.
pub open spec fn transition_line(commit: CommitText) -> Seq<(Seq<char>, Role)> {
    seq![
        (commit.author@, Role::Author),
        ("  "@, Role::Plain),
        (commit.short_id@, Role::Id),
        ("  "@, Role::Plain),
        (commit.time@, Role::Date),
    ]
}

/// The pieces of one reference.
fn push_label(pieces: &mut Vec<(String, Role)>, label: &RefLabel)
    ensures
        pieces_view(final(pieces)@) == pieces_view(old(pieces)@) + label_pieces(*label),
{
    let ghost start = old(pieces)@;
    if label.is_head {
        pieces.push((String::from_str("HEAD → "), Role::HeadWords));
    }
    let ghost middle = pieces@;
    let mut name = match label.kind {
        RefKind::Tag => String::from_str("tag: ").concat(label.name.as_str()),
        _ => label.name.clone(),
    };
    name.append(" ");
    pieces.push((name, Role::Reference(label.kind)));
    proof {
        assert(pieces_view(middle) =~= pieces_view(start) + (if label.is_head {
            seq![("HEAD → "@, Role::HeadWords)]
        } else {
            Seq::<(Seq<char>, Role)>::empty()
        }));
        assert(pieces_view(pieces@) =~= pieces_view(middle).push(
            (ref_text(label.name@, label.kind) + " "@, Role::Reference(label.kind)),
        ));
    }
}

/// A commit's two lines of text: the references and the message, then
/// the author, the id, and the time, each piece with what it is, which
/// decides its color.
pub fn commit_lines(commit: &CommitText, highlight: Highlight) -> (lines: (
    Vec<(String, Role)>,
    Vec<(String, Role)>,
))
    ensures
        pieces_view(lines.0@) == node_line(*commit, highlight),
        pieces_view(lines.1@) == transition_line(*commit),
{
    let mut first: Vec<(String, Role)> = Vec::new();
    let mut any_head = false;
    let mut i: usize = 0;
    while i < commit.refs.len()
        invariant
            i <= commit.refs@.len(),
            any_head == exists|j: int| 0 <= j < i && (#[trigger] commit.refs@[j]).is_head,
        decreases commit.refs@.len() - i,
    {
        if commit.refs[i].is_head {
            any_head = true;
        }
        i = i + 1;
    }
    proof {
        assert(any_head == head_among(commit.refs@));
    }
    if highlight == Highlight::Head && !any_head {
        first.push((String::from_str("HEAD "), Role::HeadWords));
    }
    let ghost lead = pieces_view(first@);
    proof {
        assert(lead =~= (if highlight is Head && !head_among(commit.refs@) {
            seq![("HEAD "@, Role::HeadWords)]
        } else {
            Seq::<(Seq<char>, Role)>::empty()
        }));
    }
    let mut i: usize = 0;
    while i < commit.refs.len()
        invariant
            i <= commit.refs@.len(),
            pieces_view(first@) == lead + refs_pieces(commit.refs@.take(i as int)),
        decreases commit.refs@.len() - i,
    {
        push_label(&mut first, &commit.refs[i]);
        proof {
            assert(commit.refs@.take(i as int + 1).drop_last() =~= commit.refs@.take(i as int));
        }
        i = i + 1;
    }
    proof {
        assert(commit.refs@.take(commit.refs@.len() as int) =~= commit.refs@);
    }
    let ghost before = pieces_view(first@);
    if first.len() > 0 {
        first.push((String::from_str(" "), Role::Plain));
    }
    let summary_role = match highlight {
        Highlight::Ordinary => Role::Plain,
        _ => Role::HighlightedSummary,
    };
    let ghost gapped = pieces_view(first@);
    proof {
        assert(gapped =~= before + (if before.len() > 0 {
            seq![(" "@, Role::Plain)]
        } else {
            Seq::<(Seq<char>, Role)>::empty()
        }));
    }
    first.push((commit.summary.clone(), summary_role));
    let second = vec![
        (commit.author.clone(), Role::Author),
        (String::from_str("  "), Role::Plain),
        (commit.short_id.clone(), Role::Id),
        (String::from_str("  "), Role::Plain),
        (commit.time.clone(), Role::Date),
    ];
    proof {
        assert(pieces_view(first@) =~= gapped.push((commit.summary@, summary_role)));
        assert(pieces_view(second@) =~= transition_line(*commit));
    }
    (first, second)
}

/// The display width of a line of pieces, the sum of theirs, or the
/// largest `usize` if that sum is larger.
pub open spec fn line_width(pieces: Seq<(Seq<char>, Role)>) -> nat
    decreases pieces.len(),
{
    if pieces.len() == 0 {
        0
    } else {
        line_width(pieces.drop_last()) + span_width_of(pieces.last().0)
    }
}

/// The display width of a line of pieces.
pub fn pieces_width(pieces: &[(String, Role)]) -> (width: usize)
    ensures
        width == (if line_width(pieces_view(pieces@)) <= usize::MAX {
            line_width(pieces_view(pieces@))
        } else {
            usize::MAX as nat
        }),
{
    let mut total: usize = 0;
    let mut i: usize = 0;
    while i < pieces.len()
        invariant
            i <= pieces@.len(),
            total == (if line_width(pieces_view(pieces@.take(i as int))) <= usize::MAX {
                line_width(pieces_view(pieces@.take(i as int)))
            } else {
                usize::MAX as nat
            }),
        decreases pieces@.len() - i,
    {
        let w = span_width(pieces[i].0.as_str());
        proof {
            assert(pieces_view(pieces@.take(i as int + 1)).drop_last() =~= pieces_view(
                pieces@.take(i as int),
            ));
        }
        total = total.saturating_add(w);
        i = i + 1;
    }
    proof {
        assert(pieces@.take(pieces@.len() as int) =~= pieces@);
    }
    total
}

/// The columns a commit's row reaches past the left edge of its pane,
/// its graph `graph_cells` wide: the graph, a gap, and the longer of its
/// two lines (or the largest `usize`, if that is more).
pub open spec fn extent_of(commit: CommitText, highlight: Highlight, graph_cells: nat) -> nat {
    let first = line_width(node_line(commit, highlight));
    let second = line_width(transition_line(commit));
    let longer = if first < second { second } else { first };
    let total = graph_cells + 1 + longer;
    if total <= usize::MAX { total } else { usize::MAX as nat }
}

/// The columns a commit's row reaches, its graph `graph_cells` wide.
pub fn commit_extent(commit: &CommitText, highlight: Highlight, graph_cells: usize) -> (extent: usize)
    ensures
        extent == extent_of(*commit, highlight, graph_cells as nat),
{
    let (first, second) = commit_lines(commit, highlight);
    let a = pieces_width(first.as_slice());
    let b = pieces_width(second.as_slice());
    let longer = if a < b { b } else { a };
    graph_cells.saturating_add(1).saturating_add(longer)
}

} // verus!
