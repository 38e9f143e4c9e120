//! The build configuration page's tree: each build root, and under it
//! its configurations and its targets in name order, as rows to select.
//!
//! The selection moves with ↑ and ↓, Page Up and Page Down, Home and End,
//! and stays on the same row when the tree is listed afresh from a
//! changed configuration, wherever that row went. When discovery brings
//! in a root's targets, the rows move, and the selection follows its
//! target. Delete removes the selected root, configuration, or target,
//! when pressed twice running; a target found in the project can't be
//! removed, only disabled, which Delete does at once.

use crate::build_page::BuildKey;
use crate::input::KeyCode;
use vstd::prelude::*;

verus! {

/// What the application should do after the page handled an event.
#[derive(Clone, Debug, PartialEq, Eq)]
pub enum BuildOutcome {
    /// Nothing the application needs to act on.
    Continue,
    /// The configuration changed: save it.
    Changed,
    /// The user asked to add a root: offer the project's root files.
    AddRoot,
    /// A message for the status bar, such as a request to confirm.
    Notice(String),
}

/// One row of the tree.
#[derive(Clone, Copy, Debug, PartialEq, Eq, Structural)]
pub enum Node {
    Root(usize),
    /// The `Configurations` heading under a root.
    Configurations(usize),
    Configuration(usize, usize),
    /// The `Targets` heading under a root.
    Targets(usize),
    Target(usize, usize),
}

impl Node {
    /// The root the row belongs to.
    pub open spec fn root_of(self) -> usize {
        match self {
            Node::Root(root) => root,
            Node::Configurations(root) => root,
            Node::Configuration(root, _) => root,
            Node::Targets(root) => root,
            Node::Target(root, _) => root,
        }
    }

    /// The root the row belongs to.
    pub fn root(self) -> (root: usize)
        ensures
            root == self.root_of(),
    {
        match self {
            Node::Root(root)
            | Node::Configurations(root)
            | Node::Configuration(root, _)
            | Node::Targets(root)
            | Node::Target(root, _) => root,
        }
    }

    /// How far the row is indented: a root, its headings, and the
    /// entries under them, each a level further in.
    pub fn indent(self) -> (columns: u16)
        ensures
            columns == match self {
                Node::Root(_) => 1u16,
                Node::Configurations(_) | Node::Targets(_) => 3u16,
                Node::Configuration(..) | Node::Target(..) => 5u16,
            },
    {
        match self {
            Node::Root(_) => 1,
            Node::Configurations(_) | Node::Targets(_) => 3,
            Node::Configuration(..) | Node::Target(..) => 5,
        }
    }
}

/// A root as the tree lists it: the indices of its configurations and
/// of its targets, each in name order.
#[derive(Clone, Debug)]
pub struct RootRows {
    pub configurations: Vec<usize>,
    pub targets: Vec<usize>,
}

/// The rows of one root: the root, its configurations under their
/// heading, and its targets under theirs.
pub open spec fn root_rows(root: usize, configurations: Seq<usize>, targets: Seq<usize>) -> Seq<Node> {
    seq![Node::Root(root), Node::Configurations(root)] + configurations.map_values(
        |i: usize| Node::Configuration(root, i),
    ) + seq![Node::Targets(root)] + targets.map_values(|i: usize| Node::Target(root, i))
}

/// The shape of each root: its configurations and targets in name order.
pub open spec fn shapes(roots: Seq<RootRows>) -> Seq<(Seq<usize>, Seq<usize>)> {
    roots.map_values(|r: RootRows| (r.configurations@, r.targets@))
}

/// The tree's rows for roots of the given shapes, root by root.
pub open spec fn tree_of(roots: Seq<(Seq<usize>, Seq<usize>)>) -> Seq<Node>
    decreases roots.len(),
{
    if roots.len() == 0 {
        Seq::empty()
    } else {
        tree_of(roots.drop_last()) + root_rows(
            (roots.len() - 1) as usize,
            roots.last().0,
            roots.last().1,
        )
    }
}

/// The first row at or after `start` that is `node`.
pub open spec fn row_of(nodes: Seq<Node>, node: Node, start: int) -> Option<int>
    decreases nodes.len() - start,
{
    if start < 0 || start >= nodes.len() {
        None
    } else if nodes[start] == node {
        Some(start)
    } else {
        row_of(nodes, node, start + 1)
    }
}

proof fn lemma_row_of(nodes: Seq<Node>, node: Node, start: int)
    requires
        0 <= start,
    ensures
        row_of(nodes, node, start) matches Some(i) ==> start <= i < nodes.len() && nodes[i] == node,
        row_of(nodes, node, start) is None ==> forall|j: int|
            start <= j < nodes.len() ==> nodes[j] != node,
    decreases nodes.len() - start,
{
    if 0 <= start < nodes.len() && nodes[start] != node {
        lemma_row_of(nodes, node, start + 1);
    }
}

/// The row `index` asks for in a tree of `count` rows: `index`, or the
/// last row when past it.
pub open spec fn clamped_row(index: int, count: int) -> int {
    let last = if count > 0 { count - 1 } else { 0 };
    if index < last { index } else { last }
}

/// The tree's rows and which is selected.
#[derive(Clone, Debug)]
pub struct BuildTree {
    nodes: Vec<Node>,
    /// The selected row, an index into `nodes`.
    selected: usize,
}

/// The tree's rows for `roots`.
pub fn tree_rows(roots: &[RootRows]) -> (nodes: Vec<Node>)
    ensures
        nodes@ == tree_of(shapes(roots@)),
{
    let mut nodes: Vec<Node> = Vec::new();
    let mut r: usize = 0;
    while r < roots.len()
        invariant
            r <= roots@.len(),
            nodes@ == tree_of(shapes(roots@).take(r as int)),
        decreases roots@.len() - r,
    {
        let ghost before = nodes@;
        let root = &roots[r];
        nodes.push(Node::Root(r));
        nodes.push(Node::Configurations(r));
        let mut i: usize = 0;
        while i < root.configurations.len()
            invariant
                i <= root.configurations@.len(),
                nodes@ == before + seq![Node::Root(r), Node::Configurations(r)]
                    + root.configurations@.take(i as int).map_values(
                    |c: usize| Node::Configuration(r, c),
                ),
            decreases root.configurations@.len() - i,
        {
            nodes.push(Node::Configuration(r, root.configurations[i]));
            proof {
                assert(root.configurations@.take(i as int + 1).map_values(
                    |c: usize| Node::Configuration(r, c),
                ) =~= root.configurations@.take(i as int).map_values(
                    |c: usize| Node::Configuration(r, c),
                ).push(Node::Configuration(r, root.configurations@[i as int])));
            }
            i = i + 1;
        }
        nodes.push(Node::Targets(r));
        let ghost middle = nodes@;
        let mut i: usize = 0;
        while i < root.targets.len()
            invariant
                i <= root.targets@.len(),
                nodes@ == middle + root.targets@.take(i as int).map_values(
                    |t: usize| Node::Target(r, t),
                ),
            decreases root.targets@.len() - i,
        {
            nodes.push(Node::Target(r, root.targets[i]));
            proof {
                assert(root.targets@.take(i as int + 1).map_values(|t: usize| Node::Target(r, t))
                    =~= root.targets@.take(i as int).map_values(|t: usize| Node::Target(r, t)).push(
                    Node::Target(r, root.targets@[i as int]),
                ));
            }
            i = i + 1;
        }
        proof {
            assert(root.configurations@.take(root.configurations@.len() as int)
                =~= root.configurations@);
            assert(root.targets@.take(root.targets@.len() as int) =~= root.targets@);
            let all = shapes(roots@);
            assert(all.take(r as int + 1).drop_last() =~= all.take(r as int));
            assert(nodes@ =~= before + root_rows(r, root.configurations@, root.targets@));
        }
        r = r + 1;
    }
    proof {
        assert(shapes(roots@).take(roots@.len() as int) =~= shapes(roots@));
    }
    nodes
}

/// The first row that is `node`.
fn find_row(nodes: &Vec<Node>, node: Node) -> (found: Option<usize>)
    ensures
        match found {
            Some(i) => row_of(nodes@, node, 0) == Some(i as int),
            None => row_of(nodes@, node, 0) is None,
        },
{
    let mut i: usize = 0;
    while i < nodes.len()
        invariant
            i <= nodes@.len(),
            row_of(nodes@, node, 0) == row_of(nodes@, node, i as int),
        decreases nodes@.len() - i,
    {
        if nodes[i] == node {
            return Some(i);
        }
        i = i + 1;
    }
    None
}

/// The selection after listing the tree afresh as `nodes`: on the row
/// that was selected (`previous`) wherever it went, else at the same
/// place, within the rows there are.
pub open spec fn kept_selection(nodes: Seq<Node>, previous: Option<Node>, selected: int) -> int {
    let found = match previous {
        Some(node) => row_of(nodes, node, 0),
        None => None,
    };
    clamped_row(
        match found {
            Some(i) => i,
            None => selected,
        },
        nodes.len() as int,
    )
}

/// Where a row goes when a root's targets move, `moved` giving each
/// target's new index by its old one (`None` for one that is gone): a
/// target of that root follows its target; any other row stays.
pub open spec fn followed(node: Option<Node>, root: usize, moved: Seq<Option<usize>>) -> Option<Node> {
    match node {
        Some(Node::Target(r, i)) => if r == root {
            if i < moved.len() {
                match moved[i as int] {
                    Some(j) => Some(Node::Target(r, j)),
                    None => None,
                }
            } else {
                None
            }
        } else {
            node
        },
        _ => node,
    }
}

/// Where a row goes when a root's targets move.
pub fn follow(node: Option<Node>, root: usize, moved: &[Option<usize>]) -> (to: Option<Node>)
    ensures
        to == followed(node, root, moved@),
{
    match node {
        Some(Node::Target(r, i)) => {
            if r == root {
                if i < moved.len() {
                    match moved[i] {
                        Some(j) => Some(Node::Target(r, j)),
                        None => None,
                    }
                } else {
                    None
                }
            } else {
                node
            }
        },
        _ => node,
    }
}

impl BuildTree {
    /// The rows, in order.
    pub closed spec fn rows(&self) -> Seq<Node> {
        self.nodes@
    }

    /// The index of the selected row.
    pub closed spec fn selection(&self) -> int {
        self.selected as int
    }

    /// The selected row, if there is one.
    pub open spec fn selected_row(&self) -> Option<Node> {
        if 0 <= self.selection() < self.rows().len() {
            Some(self.rows()[self.selection()])
        } else {
            None
        }
    }

    /// The selection is on a row, or at the top of an empty tree.
    pub open spec fn valid(&self) -> bool {
        self.selection() == 0 || self.selection() < self.rows().len()
    }

    /// The tree of `roots`, with the current configuration (`current`:
    /// its root and index) selected, or the first row when there is none.
    pub fn new(roots: &[RootRows], current: Option<(usize, usize)>) -> (tree: BuildTree)
        ensures
            tree.rows() == tree_of(shapes(roots@)),
            tree.valid(),
            tree.selection() == match current {
                Some((r, c)) => match row_of(tree.rows(), Node::Configuration(r, c), 0) {
                    Some(i) => i,
                    None => 0,
                },
                None => 0,
            },
    {
        let nodes = tree_rows(roots);
        let mut selected: usize = 0;
        if let Some((r, c)) = current {
            proof {
                lemma_row_of(nodes@, Node::Configuration(r, c), 0);
            }
            if let Some(index) = find_row(&nodes, Node::Configuration(r, c)) {
                selected = index;
            }
        }
        BuildTree { nodes, selected }
    }

    /// The selected row, if there is one.
    pub fn selected_node(&self) -> (node: Option<Node>)
        ensures
            node == self.selected_row(),
    {
        if self.selected < self.nodes.len() {
            Some(self.nodes[self.selected])
        } else {
            None
        }
    }

    /// The index of the selected row.
    pub fn selected_index(&self) -> (index: usize)
        ensures
            index == self.selection(),
    {
        self.selected
    }

    /// The rows, in order.
    pub fn nodes(&self) -> (nodes: &[Node])
        ensures
            nodes@ == self.rows(),
    {
        self.nodes.as_slice()
    }

    /// List the rows afresh for `roots`, keeping the selection on the
    /// same row where it still is.
    pub fn rebuild(&mut self, roots: &[RootRows])
        ensures
            final(self).rows() == tree_of(shapes(roots@)),
            final(self).selection() == kept_selection(
                final(self).rows(),
                old(self).selected_row(),
                old(self).selection(),
            ),
            final(self).valid(),
    {
        let previous = self.selected_node();
        let nodes = tree_rows(roots);
        let found = match previous {
            Some(node) => find_row(&nodes, node),
            None => None,
        };
        let index = match found {
            Some(i) => i,
            None => self.selected,
        };
        self.selected = index.min(nodes.len().saturating_sub(1));
        self.nodes = nodes;
    }

    /// Select a row by its node, after the configuration changed (a root
    /// added, say): the rows are listed afresh, and the node selected if
    /// it is among them.
    pub fn select(&mut self, node: Node, roots: &[RootRows])
        ensures
            final(self).rows() == tree_of(shapes(roots@)),
            final(self).valid(),
            row_of(final(self).rows(), node, 0) is Some ==> final(self).selected_row() == Some(node),
            row_of(final(self).rows(), node, 0) is None ==> final(self).selection() == kept_selection(
                final(self).rows(),
                old(self).selected_row(),
                old(self).selection(),
            ),
    {
        self.rebuild(roots);
        proof {
            lemma_row_of(self.nodes@, node, 0);
        }
        if let Some(index) = find_row(&self.nodes, node) {
            self.selected = index;
        }
    }

    /// Move the selection to a row, or the last one when past it.
    pub fn select_index(&mut self, index: usize)
        ensures
            final(self).rows() == old(self).rows(),
            final(self).rows().len() == 0 ==> final(self).selection() == old(self).selection(),
            final(self).rows().len() > 0 ==> final(self).selection() == clamped_row(
                index as int,
                old(self).rows().len() as int,
            ),
            old(self).valid() ==> final(self).valid(),
    {
        if self.nodes.len() == 0 {
            return;
        }
        self.selected = index.min(self.nodes.len() - 1);
    }

    /// A key that moves the selection: ↑ and ↓ a row, Page Up and Page
    /// Down by `page` rows, Home and End to the ends. Returns whether the
    /// key was one of these.
    pub fn move_key(&mut self, code: KeyCode, page: usize) -> (moved: bool)
        ensures
            final(self).rows() == old(self).rows(),
            old(self).valid() ==> final(self).valid(),
            ({
                let s = old(self).selection();
                let count = old(self).rows().len() as int;
                let target = match code {
                    KeyCode::Up => if s > 0 { s - 1 } else { 0 },
                    KeyCode::Down => if s < usize::MAX { s + 1 } else { s },
                    KeyCode::Home => 0,
                    KeyCode::End => usize::MAX as int,
                    KeyCode::PageUp => if s > page { s - page } else { 0 },
                    KeyCode::PageDown => if s + page <= usize::MAX {
                        s + page
                    } else {
                        usize::MAX as int
                    },
                    _ => s,
                };
                let is_move = match code {
                    KeyCode::Up | KeyCode::Down | KeyCode::Home | KeyCode::End | KeyCode::PageUp
                    | KeyCode::PageDown => true,
                    _ => false,
                };
                &&& moved == is_move
                &&& (moved && count > 0) ==> final(self).selection() == clamped_row(target, count)
                &&& !(moved && count > 0) ==> final(self).selection() == s
            }),
    {
        let target = match code {
            KeyCode::Up => self.selected.saturating_sub(1),
            KeyCode::Down => self.selected.saturating_add(1),
            KeyCode::Home => 0,
            KeyCode::End => usize::MAX,
            KeyCode::PageUp => self.selected.saturating_sub(page),
            KeyCode::PageDown => self.selected.saturating_add(page),
            _ => return false,
        };
        self.select_index(target);
        true
    }

    /// Discovery brought in a root's targets: the rows move, and `moved`
    /// says where each of the root's targets went by its old index,
    /// `None` for one that is gone. The selection follows its target, or
    /// stays where it was when it is gone.
    pub fn targets_moved(&mut self, root: usize, moved: &[Option<usize>], roots: &[RootRows])
        ensures
            final(self).rows() == tree_of(shapes(roots@)),
            final(self).valid(),
            ({
                let to = followed(old(self).selected_row(), root, moved@);
                let found = match to {
                    Some(node) => row_of(final(self).rows(), node, 0),
                    None => None,
                };
                final(self).selection() == clamped_row(
                    match found {
                        Some(i) => i,
                        None => old(self).selection(),
                    },
                    final(self).rows().len() as int,
                )
            }),
    {
        let selected = follow(self.selected_node(), root, moved);
        let nodes = tree_rows(roots);
        let found = match selected {
            Some(node) => find_row(&nodes, node),
            None => None,
        };
        let index = match found {
            Some(i) => i,
            None => self.selected,
        };
        self.selected = index.min(nodes.len().saturating_sub(1));
        self.nodes = nodes;
    }
}

/// Where the selection goes when `node` was removed and its root now
/// has `count` configurations (or targets, for a target): the same list
/// where it still has entries, the entry at the same index or the last.
pub open spec fn next_after_removal(node: Node, count: nat) -> Option<Node> {
    match node {
        Node::Configuration(r, i) => if count > 0 {
            Some(Node::Configuration(r, if i < count - 1 { i } else { (count - 1) as usize }))
        } else {
            None
        },
        Node::Target(r, i) => if count > 0 {
            Some(Node::Target(r, if i < count - 1 { i } else { (count - 1) as usize }))
        } else {
            None
        },
        _ => None,
    }
}

/// The row selected after `node` was removed, the tree now having `rows`
/// and the selection having been at `previous`: the row that takes its
/// place (see [`next_after_removal`]) if it is in the tree, else the
/// previous row or the last.
pub open spec fn selection_after_removal(previous: int, node: Node, count: nat, rows: Seq<Node>) -> int {
    let found = match next_after_removal(node, count) {
        Some(n) => row_of(rows, n, 0),
        None => None,
    };
    match found {
        Some(i) => i,
        None => clamped_row(previous, rows.len() as int),
    }
}

/// Removing a configuration or a target keeps the selection in the same
/// list while it has entries: on the entry that took the removed one's
/// place, or on the list's last entry when the removed one was last.
pub proof fn removal_selects_the_entry_in_its_place(
    previous: int,
    root: usize,
    index: usize,
    count: nat,
    rows: Seq<Node>,
)
    requires
        count > 0,
    ensures
        ({
            let place = (if index < count { index as int } else { count - 1 }) as usize;
            rows.contains(Node::Configuration(root, place)) ==> rows[selection_after_removal(
                previous,
                Node::Configuration(root, index),
                count,
                rows,
            )] == Node::Configuration(root, place)
        }),
        ({
            let place = (if index < count { index as int } else { count - 1 }) as usize;
            rows.contains(Node::Target(root, place)) ==> rows[selection_after_removal(
                previous,
                Node::Target(root, index),
                count,
                rows,
            )] == Node::Target(root, place)
        }),
{
    let place = (if index < count { index as int } else { count - 1 }) as usize;
    lemma_row_of(rows, Node::Configuration(root, place), 0);
    lemma_row_of(rows, Node::Target(root, place), 0);
    if rows.contains(Node::Configuration(root, place)) {
        let k = choose|k: int| 0 <= k < rows.len() && rows[k] == Node::Configuration(root, place);
        assert(rows[k] == Node::Configuration(root, place));
    }
    if rows.contains(Node::Target(root, place)) {
        let k = choose|k: int| 0 <= k < rows.len() && rows[k] == Node::Target(root, place);
        assert(rows[k] == Node::Target(root, place));
    }
}

impl BuildTree {
    /// After `node` was removed: list the rows afresh and select the row
    /// that takes its place in the same list (`count` being how many
    /// entries its list has now), or the row that follows.
    pub fn removed(&mut self, node: Node, count: usize, roots: &[RootRows])
        ensures
            final(self).rows() == tree_of(shapes(roots@)),
            final(self).valid(),
            final(self).selection() == selection_after_removal(
                old(self).selection(),
                node,
                count as nat,
                final(self).rows(),
            ),
    {
        let nodes = tree_rows(roots);
        let next = match node {
            Node::Configuration(r, i) => if count > 0 {
                Some(Node::Configuration(r, i.min(count - 1)))
            } else {
                None
            },
            Node::Target(r, i) => if count > 0 {
                Some(Node::Target(r, i.min(count - 1)))
            } else {
                None
            },
            _ => None,
        };
        let found = match next {
            Some(n) => find_row(&nodes, n),
            None => None,
        };
        proof {
            if let Some(n) = next {
                lemma_row_of(nodes@, n, 0);
            }
        }
        self.selected = match found {
            Some(i) => i,
            None => self.selected.min(nodes.len().saturating_sub(1)),
        };
        self.nodes = nodes;
    }
}

/// What Delete does to the selected row.
#[derive(Clone, Copy, Debug, PartialEq, Eq, Structural)]
pub enum DeleteStep {
    /// A heading: there is nothing to remove; say what can be.
    Refuse,
    /// A target found in the project: disable it, or enable it again.
    ToggleDisabled,
    /// The first press: ask for another.
    AskToConfirm,
    /// The second press running: remove the row's root, configuration,
    /// or target.
    Remove,
}

/// The row Delete was pressed for once, awaiting the second press.
#[derive(Clone, Copy, Debug, PartialEq, Eq, Structural)]
pub struct Removal {
    pub confirm: Option<Node>,
}

/// What Delete on `node` does with `confirm` pending: a heading is
/// refused and a discovered target toggled, leaving what is pending as
/// it was; anything else asks for confirmation, or is removed when
/// confirmation for it is pending.
pub open spec fn delete_step(confirm: Option<Node>, node: Node, discovered: bool) -> (DeleteStep, Option<Node>) {
    match node {
        Node::Configurations(_) | Node::Targets(_) => (DeleteStep::Refuse, confirm),
        _ => if node is Target && discovered {
            (DeleteStep::ToggleDisabled, confirm)
        } else if confirm != Some(node) {
            (DeleteStep::AskToConfirm, Some(node))
        } else {
            (DeleteStep::Remove, None)
        },
    }
}

/// What is pending after a key that does `action`: Delete in the tree
/// keeps it for the press to confirm; any other key lets it lapse.
pub open spec fn pending_after_key(confirm: Option<Node>, action: BuildKey) -> Option<Node> {
    if action is Remove {
        confirm
    } else {
        None
    }
}

impl Removal {
    /// A key on the page that does `action`: unless it is Delete in the
    /// tree, a pending confirmation lapses, since removal is confirmed
    /// only by Delete pressed twice running.
    pub fn after_key(&mut self, action: &BuildKey)
        ensures
            final(self).confirm == pending_after_key(old(self).confirm, *action),
    {
        match action {
            BuildKey::Remove => {},
            _ => self.confirm = None,
        }
    }

    /// Any input other than Delete in the tree: a pending confirmation
    /// lapses, since removal takes Delete pressed twice running.
    pub fn interrupt(&mut self)
        ensures
            final(self).confirm is None,
    {
        self.confirm = None;
    }

    /// Delete pressed on `node`, which is a discovered target when
    /// `discovered`.
    pub fn delete(&mut self, node: Node, discovered: bool) -> (step: DeleteStep)
        ensures
            (step, final(self).confirm) == delete_step(old(self).confirm, node, discovered),
    {
        match node {
            Node::Configurations(_) | Node::Targets(_) => DeleteStep::Refuse,
            _ => {
                let is_target = match node {
                    Node::Target(..) => true,
                    _ => false,
                };
                if is_target && discovered {
                    DeleteStep::ToggleDisabled
                } else if self.confirm != Some(node) {
                    self.confirm = Some(node);
                    DeleteStep::AskToConfirm
                } else {
                    self.confirm = None;
                    DeleteStep::Remove
                }
            },
        }
    }
}

/// Removal takes Delete pressed twice running on the same row: with
/// nothing pending, a press never removes, and a second press on the
/// row the first asked about does. A target found in the project is
/// never removed: Delete disables or enables it at once, whatever is
/// pending.
pub proof fn removal_takes_two_presses(node: Node, pending: Option<Node>, root: usize, target: usize)
    requires
        !(node is Configurations || node is Targets || node is Target),
    ensures
        delete_step(None, node, false).0 != DeleteStep::Remove,
        delete_step(None, node, false) == (DeleteStep::AskToConfirm, Some(node)),
        delete_step(Some(node), node, false) == (DeleteStep::Remove, Option::<Node>::None),
        delete_step(pending, Node::Target(root, target), true) == (DeleteStep::ToggleDisabled, pending),
{
}

/// Any key between two presses of Delete cancels the removal: the first
/// press on a root, a configuration, or a target the user added only
/// asks; Delete again right after removes the row; any other key in
/// between lets the request lapse, so the next Delete asks again.
pub proof fn another_key_cancels_a_removal(node: Node, discovered: bool, action: BuildKey)
    requires
        node is Root || node is Configuration || node is Target,
        node is Target ==> !discovered,
        !(action is Remove),
    ensures
        delete_step(None, node, discovered) == (DeleteStep::AskToConfirm, Some(node)),
        delete_step(pending_after_key(Some(node), BuildKey::Remove), node, discovered).0
            == DeleteStep::Remove,
        delete_step(pending_after_key(Some(node), action), node, discovered) == (
            DeleteStep::AskToConfirm,
            Some(node),
        ),
{
}

/// Listing the tree afresh keeps the selection on its row whenever the
/// row is still in the tree.
pub proof fn rebuilding_keeps_the_selected_row(nodes: Seq<Node>, previous: Node, selected: int)
    requires
        row_of(nodes, previous, 0) is Some,
    ensures
        nodes[kept_selection(nodes, Some(previous), selected)] == previous,
{
    lemma_row_of(nodes, previous, 0);
}

} // verus!
