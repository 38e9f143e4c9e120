//! The editor's tabs as the application keeps them: which is active,
//! and when each was last viewed. Closing the active tab goes back to
//! the most recently viewed of the rest, as the user most likely came
//! from there, and the tab search lists the tabs most recently viewed
//! first, the active one at the top, so that the one viewed before it
//! is preselected and Enter alone flips back to it.
//!
//! Closing a tab with unsaved changes, or quitting with any, takes the
//! request twice running.

use crate::text::{decimal, decimal_text};
use vstd::prelude::*;

verus! {

/// The index of the most recently viewed of the first `n` entries of
/// `viewed`, the last of them when several were viewed at once (as
/// `max_by_key` picks).
pub open spec fn latest_of(viewed: Seq<u64>, n: int) -> Option<int>
    decreases n,
{
    if n <= 0 {
        None
    } else {
        match latest_of(viewed, n - 1) {
            Some(best) => if viewed[n - 1] >= viewed[best] {
                Some(n - 1)
            } else {
                Some(best)
            },
            None => Some(n - 1),
        }
    }
}

/// The index of the most recently viewed of `viewed`.
pub open spec fn latest(viewed: Seq<u64>) -> Option<int> {
    latest_of(viewed, viewed.len() as int)
}

proof fn lemma_latest_of(viewed: Seq<u64>, n: int)
    requires
        0 <= n <= viewed.len(),
    ensures
        n == 0 <==> latest_of(viewed, n) is None,
        latest_of(viewed, n) matches Some(b) ==> 0 <= b < n && forall|j: int|
            0 <= j < n ==> viewed[j] <= viewed[b],
        latest_of(viewed, n) matches Some(b) ==> forall|j: int|
            b < j < n ==> viewed[j] < viewed[b],
    decreases n,
{
    if n > 0 {
        lemma_latest_of(viewed, n - 1);
    }
}

/// Whether index `a` comes before index `b` when listing most recently
/// viewed first: viewed later, or viewed at once and opened earlier.
pub open spec fn listed_before(viewed: Seq<u64>, a: int, b: int) -> bool {
    viewed[a] > viewed[b] || (viewed[a] == viewed[b] && a < b)
}

/// Whether `order` lists the indices of `viewed`, each once, most
/// recently viewed first.
pub open spec fn by_recency(viewed: Seq<u64>, order: Seq<usize>) -> bool {
    &&& order.len() == viewed.len()
    &&& forall|k: int| 0 <= k < order.len() ==> (#[trigger] order[k]) < viewed.len()
    &&& forall|i: usize| i < viewed.len() ==> #[trigger] order.contains(i)
    &&& forall|a: int, b: int|
        0 <= a < b < order.len() ==> listed_before(viewed, #[trigger] order[a] as int, #[trigger] order[b] as int)
}

/// The index of the most recently viewed of `viewed`.
pub fn latest_index(viewed: &Vec<u64>) -> (index: Option<usize>)
    ensures
        match index {
            Some(i) => latest(viewed@) == Some(i as int),
            None => latest(viewed@) is None,
        },
{
    let mut best: Option<usize> = None;
    let mut i: usize = 0;
    while i < viewed.len()
        invariant
            i <= viewed@.len(),
            match best {
                Some(b) => latest_of(viewed@, i as int) == Some(b as int),
                None => latest_of(viewed@, i as int) is None,
            },
        decreases viewed@.len() - i,
    {
        proof {
            lemma_latest_of(viewed@, i as int);
        }
        best = match best {
            Some(b) => if viewed[i] >= viewed[b] {
                Some(i)
            } else {
                Some(b)
            },
            None => Some(i),
        };
        i = i + 1;
    }
    best
}

/// The indices of `viewed`, most recently viewed first, those viewed at
/// once in the order they were opened.
pub fn order_by_recency(viewed: &Vec<u64>) -> (order: Vec<usize>)
    ensures
        by_recency(viewed@, order@),
{
    let n = viewed.len();
    let mut order: Vec<usize> = Vec::new();
    let mut i: usize = 0;
    while i < n
        invariant
            n == viewed@.len(),
            i <= n,
            order@.len() == i,
            forall|k: int| 0 <= k < order@.len() ==> (#[trigger] order@[k]) < i,
            forall|j: usize| j < i ==> #[trigger] order@.contains(j),
            forall|a: int, b: int|
                0 <= a < b < order@.len() ==> listed_before(
                    viewed@,
                    #[trigger] order@[a] as int,
                    #[trigger] order@[b] as int,
                ),
        decreases n - i,
    {
        let mut p: usize = 0;
        while p < order.len() && viewed[order[p]] >= viewed[i]
            invariant
                n == viewed@.len(),
                i < n,
                p <= order@.len(),
                forall|k: int| 0 <= k < order@.len() ==> (#[trigger] order@[k]) < i,
                forall|q: int| 0 <= q < p ==> viewed@[#[trigger] order@[q] as int] >= viewed@[i as int],
            decreases order@.len() - p,
        {
            p = p + 1;
        }
        let ghost before = order@;
        proof {
            assert forall|q: int| p <= q < before.len() implies viewed@[#[trigger] before[q] as int]
                < viewed@[i as int] by {
                if q > p {
                    assert(listed_before(viewed@, before[p as int] as int, before[q] as int));
                }
            }
        }
        order.insert(p, i);
        proof {
            let after = order@;
            assert(after == before.insert(p as int, i));
            assert forall|j: usize| j < i + 1 implies #[trigger] after.contains(j) by {
                if j < i {
                    assert(before.contains(j));
                    let k = choose|k: int| 0 <= k < before.len() && before[k] == j;
                    if k < p {
                        assert(after[k] == j);
                    } else {
                        assert(after[k + 1] == j);
                    }
                } else {
                    assert(after[p as int] == j);
                }
            }
            assert forall|a: int, b: int| 0 <= a < b < after.len() implies listed_before(
                viewed@,
                #[trigger] after[a] as int,
                #[trigger] after[b] as int,
            ) by {
                if b < p {
                    assert(after[a] == before[a] && after[b] == before[b]);
                } else if b == p {
                    assert(after[a] == before[a]);
                    assert(viewed@[before[a] as int] >= viewed@[i as int]);
                } else if a < p {
                    assert(after[a] == before[a] && after[b] == before[b - 1]);
                } else if a == p {
                    assert(after[b] == before[b - 1]);
                } else {
                    assert(after[a] == before[a - 1] && after[b] == before[b - 1]);
                }
            }
        }
        i = i + 1;
    }
    order
}

/// The editor's tabs: when each was last viewed, which is active, and
/// the clock that orders the views.
pub struct TabHistory {
    /// For each tab, the tick of `clock` it was last active at.
    last_viewed: Vec<u64>,
    active: usize,
    clock: u64,
}

/// What closing tab `index` makes of `before`: an index past the tabs
/// changes nothing; closing the active tab goes back to the most
/// recently viewed of the rest, viewing it now, or leaves no tab active
/// when it was the last; closing another keeps the same tab active.
pub open spec fn closed_by(before: TabHistory, index: usize, after: TabHistory) -> bool {
    &&& index >= before.viewed().len() ==> after == before
    &&& index < before.viewed().len() ==> {
        let rest = before.viewed().remove(index as int);
        if index == before.active_of() {
            match latest(rest) {
                Some(recent) => {
                    &&& after.active_of() == recent
                    &&& after.clock_of() == before.clock_of() + 1
                    &&& after.viewed() == rest.update(recent, after.clock_of())
                },
                None => {
                    &&& after.viewed() == rest
                    &&& after.active_of() == index
                    &&& after.clock_of() == before.clock_of()
                },
            }
        } else {
            &&& after.viewed() == rest
            &&& after.clock_of() == before.clock_of()
            &&& after.active_of() == (if before.active_of() > index {
                before.active_of() - 1
            } else {
                before.active_of()
            })
        }
    }
}

impl TabHistory {
    /// With tabs open the active one is among them, was viewed last, at
    /// the clock's tick, and every other one before it.
    #[verifier::type_invariant]
    spec fn ordered(self) -> bool {
        self.last_viewed@.len() > 0 ==> {
            &&& self.active < self.last_viewed@.len()
            &&& self.last_viewed@[self.active as int] == self.clock
            &&& forall|j: int|
                0 <= j < self.last_viewed@.len() && j != self.active ==> self.last_viewed@[j]
                    < self.clock
        }
    }

    /// When each tab was last viewed.
    pub closed spec fn viewed(&self) -> Seq<u64> {
        self.last_viewed@
    }

    /// The active tab, meaningful while there are tabs.
    pub closed spec fn active_of(&self) -> int {
        self.active as int
    }

    /// The last tick given to a view.
    pub closed spec fn clock_of(&self) -> u64 {
        self.clock
    }

    /// No tabs.
    pub fn new() -> (tabs: TabHistory)
        ensures
            tabs.viewed() == Seq::<u64>::empty(),
            tabs.active_of() == 0,
            tabs.clock_of() == 0,
    {
        TabHistory { last_viewed: Vec::new(), active: 0, clock: 0 }
    }

    /// How many tabs there are.
    pub fn len(&self) -> (count: usize)
        ensures
            count == self.viewed().len(),
    {
        self.last_viewed.len()
    }

    /// The active tab, while there are tabs.
    pub fn active(&self) -> (index: Option<usize>)
        ensures
            self.viewed().len() == 0 ==> index is None,
            self.viewed().len() > 0 ==> index == Some(self.active_of() as usize),
            index matches Some(i) ==> i < self.viewed().len(),
    {
        proof {
            use_type_invariant(self);
        }
        if self.last_viewed.len() == 0 {
            None
        } else {
            Some(self.active)
        }
    }

    /// Make a tab the active one, recording it as the most recently
    /// viewed; an index past the tabs changes nothing.
    pub fn activate(&mut self, index: usize)
        requires
            old(self).clock_of() < u64::MAX,
        ensures
            index >= old(self).viewed().len() ==> *final(self) == *old(self),
            index < old(self).viewed().len() ==> {
                &&& final(self).active_of() == index
                &&& final(self).clock_of() == old(self).clock_of() + 1
                &&& final(self).viewed() == old(self).viewed().update(
                    index as int,
                    final(self).clock_of(),
                )
            },
    {
        proof {
            use_type_invariant(&*self);
        }
        if index < self.last_viewed.len() {
            let clock = self.clock + 1;
            let mut viewed = self.last_viewed.clone();
            viewed.set(index, clock);
            *self = TabHistory { last_viewed: viewed, active: index, clock };
        }
    }

    /// Open a new tab after the others, and make it the active one.
    pub fn open(&mut self) -> (index: usize)
        requires
            old(self).clock_of() < u64::MAX,
        ensures
            index == old(self).viewed().len(),
            final(self).active_of() == index,
            final(self).clock_of() == old(self).clock_of() + 1,
            final(self).viewed() == old(self).viewed().push(final(self).clock_of()),
    {
        proof {
            use_type_invariant(&*self);
        }
        let clock = self.clock + 1;
        let mut viewed = self.last_viewed.clone();
        let index = viewed.len();
        viewed.push(clock);
        *self = TabHistory { last_viewed: viewed, active: index, clock };
        index
    }

    /// The most recently viewed tab.
    pub fn most_recent(&self) -> (index: Option<usize>)
        ensures
            match index {
                Some(i) => latest(self.viewed()) == Some(i as int),
                None => latest(self.viewed()) is None,
            },
    {
        latest_index(&self.last_viewed)
    }

    /// The tabs most recently viewed first: the active one at the top.
    pub fn recency_order(&self) -> (order: Vec<usize>)
        ensures
            by_recency(self.viewed(), order@),
            self.viewed().len() > 0 ==> order@[0] == self.active_of(),
    {
        proof {
            use_type_invariant(self);
        }
        let order = order_by_recency(&self.last_viewed);
        proof {
            if self.last_viewed@.len() > 0 {
                let first = order@[0] as int;
                if first != self.active as int {
                    assert(order@.contains(self.active));
                    let k = choose|k: int| 0 <= k < order@.len() && order@[k] == self.active;
                    assert(listed_before(self.last_viewed@, order@[0] as int, order@[k] as int));
                }
            }
        }
        order
    }

    /// Close a tab. Closing the active one goes back to the most recently
    /// viewed of the rest; closing one before the active one keeps the
    /// same tab active. An index past the tabs changes nothing.
    pub fn close(&mut self, index: usize)
        requires
            old(self).clock_of() < u64::MAX,
        ensures
            closed_by(*old(self), index, *final(self)),
    {
        proof {
            use_type_invariant(&*self);
        }
        if index >= self.last_viewed.len() {
            return;
        }
        let mut viewed = self.last_viewed.clone();
        viewed.remove(index);
        if self.active == index {
            proof {
                lemma_latest_of(viewed@, viewed@.len() as int);
            }
            match latest_index(&viewed) {
                Some(recent) => {
                    let clock = self.clock + 1;
                    viewed.set(recent, clock);
                    *self = TabHistory { last_viewed: viewed, active: recent, clock };
                },
                None => {
                    *self = TabHistory { last_viewed: viewed, active: index, clock: self.clock };
                },
            }
        } else {
            let active = if self.active > index {
                self.active - 1
            } else {
                self.active
            };
            *self = TabHistory { last_viewed: viewed, active, clock: self.clock };
        }
    }
}

/// What `std::path::Path::parent` gives for a path, as text.
pub uninterp spec fn path_parent(path: Seq<char>) -> Option<Seq<char>>;

/// What `std::path::Path::file_name` gives for a path, as text.
pub uninterp spec fn path_file_name(path: Seq<char>) -> Option<Seq<char>>;

/// `std::path::Path::parent` of `path`, displayed: the path without its
/// final component, if it has one. Only that the result is that
/// function's, for this path, is claimed.
#[verifier::external_body]
fn parent_path(path: &str) -> (parent: Option<String>)
    ensures
        match parent {
            Some(p) => path_parent(path@) == Some(p@),
            None => path_parent(path@) is None,
        },
{
    std::path::Path::new(path).parent().map(|p| p.display().to_string())
}

/// `std::path::Path::file_name` of `path`, displayed: its final
/// component, unless that is `..` or there is none. Only that the result
/// is that function's, for this path, is claimed.
#[verifier::external_body]
fn file_name(path: &str) -> (name: Option<String>)
    ensures
        match name {
            Some(n) => path_file_name(path@) == Some(n@),
            None => path_file_name(path@) is None,
        },
{
    std::path::Path::new(path).file_name().map(|n| n.to_string_lossy().into_owned())
}

/// The directory part of a displayed path, or nothing for a bare file
/// name.
pub open spec fn parent_text(path: Seq<char>) -> Seq<char> {
    match path_parent(path) {
        Some(p) => p,
        None => Seq::empty(),
    }
}

/// The directory part of a displayed path, or empty for a bare file
/// name.
pub fn parent_of(path: &str) -> (parent: String)
    ensures
        parent@ == parent_text(path@),
{
    match parent_path(path) {
        Some(p) => p,
        None => String::new(),
    }
}

/// A tab's title: its file's name, or `untitled` for a file that has
/// none yet.
pub open spec fn title_text(path: Option<Seq<char>>) -> Seq<char> {
    match path {
        Some(p) => match path_file_name(p) {
            Some(name) => name,
            None => "untitled"@,
        },
        None => "untitled"@,
    }
}

/// A tab's title, for the tab's file at `path`.
pub fn tab_title(path: Option<&str>) -> (title: String)
    ensures
        title@ == title_text(
            match path {
                Some(p) => Some(p@),
                None => None,
            },
        ),
{
    let name = match path {
        Some(p) => file_name(p),
        None => None,
    };
    match name {
        Some(n) => n,
        None => String::from_str("untitled"),
    }
}

/// An action that discards unsaved changes and so needs confirming.
#[derive(Clone, Copy, Debug, PartialEq, Eq, Structural)]
pub enum Confirm {
    CloseTab(usize),
    Quit,
}

/// A request to close tab `index`: one with unsaved changes asks first,
/// unless this is the second request running; the confirmation pending
/// after, and whether it asks.
pub open spec fn close_request(confirm: Option<Confirm>, index: usize, modified: bool) -> (Option<Confirm>, bool) {
    if modified && confirm != Some(Confirm::CloseTab(index)) {
        (Some(Confirm::CloseTab(index)), true)
    } else {
        (confirm, false)
    }
}

/// What asking to close a tab with unsaved changes says.
pub open spec fn close_question(title: Seq<char>) -> Seq<char> {
    title + " has unsaved changes: press Ctrl+W again to close without saving, Ctrl+S to save"@
}

/// A request to close tab `index`, titled `title`, which has unsaved
/// changes when `modified`. Returns what to say when it asks first;
/// none means close it.
pub fn request_close(confirm: &mut Option<Confirm>, index: usize, modified: bool, title: &str) -> (ask: Option<String>)
    ensures
        (*final(confirm), ask is Some) == close_request(*old(confirm), index, modified),
        ask matches Some(text) ==> text@ == close_question(title@),
{
    let pending = match *confirm {
        Some(Confirm::CloseTab(i)) => i == index,
        _ => false,
    };
    if modified && !pending {
        *confirm = Some(Confirm::CloseTab(index));
        return Some(String::from_str(title).concat(
            " has unsaved changes: press Ctrl+W again to close without saving, Ctrl+S to save",
        ));
    }
    None
}

/// A request to quit with `unsaved` files unsaved: it asks first, unless
/// there are none or this is the second request running.
pub open spec fn quit_request(confirm: Option<Confirm>, unsaved: nat) -> (Option<Confirm>, bool) {
    if unsaved > 0 && confirm != Some(Confirm::Quit) {
        (Some(Confirm::Quit), true)
    } else {
        (confirm, false)
    }
}

/// A request to quit with `unsaved` files unsaved. Returns what to say
/// when it asks first; none means quit.
pub fn request_quit(confirm: &mut Option<Confirm>, unsaved: usize) -> (ask: Option<String>)
    ensures
        (*final(confirm), ask is Some) == quit_request(*old(confirm), unsaved as nat),
        ask matches Some(text) ==> text@ == decimal_text(unsaved as nat)
            + " file(s) have unsaved changes: press Ctrl+Q again to quit without saving"@,
{
    let pending = match *confirm {
        Some(Confirm::Quit) => true,
        _ => false,
    };
    if unsaved > 0 && !pending {
        *confirm = Some(Confirm::Quit);
        let mut text = decimal(unsaved);
        text.append(" file(s) have unsaved changes: press Ctrl+Q again to quit without saving");
        return Some(text);
    }
    None
}

/// Discarding unsaved changes takes the request twice running: with
/// nothing pending the first request to close a modified tab, or to quit
/// with unsaved files, only asks, and the second does it.
pub proof fn discarding_changes_takes_two_requests(index: usize, unsaved: nat)
    requires
        unsaved > 0,
    ensures
        close_request(None, index, true).1,
        !close_request(close_request(None, index, true).0, index, true).1,
        quit_request(None, unsaved).1,
        !quit_request(quit_request(None, unsaved).0, unsaved).1,
{
}

/// The tab search lists the tabs most recently viewed first: each tab
/// once, none listed after one viewed before it.
pub proof fn the_tab_search_lists_the_most_recent_first(viewed: Seq<u64>, order: Seq<usize>)
    requires
        by_recency(viewed, order),
        viewed.len() <= usize::MAX,
    ensures
        order.len() == viewed.len(),
        forall|a: int, b: int|
            0 <= a < b < order.len() ==> viewed[#[trigger] order[a] as int] >= viewed[#[trigger] order[b] as int],
        forall|a: int, b: int| 0 <= a < b < order.len() ==> #[trigger] order[a] != #[trigger] order[b],
        order.len() > 0 ==> forall|i: int| 0 <= i < viewed.len() ==> #[trigger] viewed[i] <= viewed[order[0] as int],
{
    assert forall|a: int, b: int| 0 <= a < b < order.len() implies #[trigger] order[a] != #[trigger] order[b] by {
        assert(listed_before(viewed, order[a] as int, order[b] as int));
    }
    assert forall|i: int| 0 <= i < viewed.len() && order.len() > 0 implies #[trigger] viewed[i] <= viewed[order[0] as int] by {
        let u = i as usize;
        assert(u < viewed.len());
        assert(order.contains(u));
        let k = choose|k: int| 0 <= k < order.len() && order[k] == u;
        assert(order[k] as int == i);
        if k > 0 {
            assert(listed_before(viewed, order[0] as int, order[k] as int));
        }
    }
}

/// Closing the active tab goes back to the one of the rest viewed most
/// recently: none of the tabs left was viewed after it. Closing another
/// tab keeps the same tab active, wherever it moved.
pub proof fn closing_goes_back_to_the_last_viewed(tabs: TabHistory, index: usize, after: TabHistory)
    requires
        closed_by(tabs, index, after),
        0 <= tabs.active_of() < tabs.viewed().len(),
        index < tabs.viewed().len(),
        tabs.viewed().len() > 1,
    ensures
        ({
            let rest = tabs.viewed().remove(index as int);
            &&& 0 <= after.active_of() < rest.len()
            &&& index == tabs.active_of() ==> forall|j: int|
                0 <= j < rest.len() ==> #[trigger] rest[j] <= rest[after.active_of()]
            &&& index != tabs.active_of() ==> rest[after.active_of()] == tabs.viewed()[tabs.active_of()]
        }),
{
    let rest = tabs.viewed().remove(index as int);
    lemma_latest_of(rest, rest.len() as int);
}

/// Closing a tab with unsaved changes asks first and closes on the
/// request right after: with nothing pending the first request only asks,
/// leaving the tabs as they are; the second closes the tab, one fewer
/// then; a tab without unsaved changes closes at once; and closing an
/// index past the tabs changes nothing.
pub proof fn a_modified_tab_closes_on_the_second_request(
    tabs: TabHistory,
    index: usize,
    pending: Option<Confirm>,
    after: TabHistory,
)
    requires
        closed_by(tabs, index, after),
    ensures
        close_request(None, index, true) == (Some(Confirm::CloseTab(index)), true),
        !close_request(close_request(None, index, true).0, index, true).1,
        !close_request(pending, index, false).1,
        index < tabs.viewed().len() ==> after.viewed().len() == tabs.viewed().len() - 1,
        index >= tabs.viewed().len() ==> after == tabs,
{
    if index < tabs.viewed().len() {
        let rest = tabs.viewed().remove(index as int);
        lemma_latest_of(rest, rest.len() as int);
    }
}

/// The name of the editor, as shown on the empty page and in the
/// terminal's title.
pub const EDITOR_NAME: &'static str = "Ninja Edit";

/// The title for the terminal window: the editor's name and where it
/// was started (the project's name, or the directory's path when there
/// isn't a project).
pub fn window_title(location: &str) -> (title: String)
    ensures
        title@ == EDITOR_NAME@ + " — "@ + location@,
{
    let mut title = String::from_str(EDITOR_NAME);
    title.append(" — ");
    title.append(location);
    title
}

/// `text` without the `separator`s at its end.
pub open spec fn without_trailing(text: Seq<char>, separator: char) -> Seq<char>
    decreases text.len(),
{
    if text.len() > 0 && text.last() == separator {
        without_trailing(text.drop_last(), separator)
    } else {
        text
    }
}

/// The directory a file's displayed path shows it in, for the file
/// search: the path before the file's name, without the separators at
/// its end; nothing when the path doesn't end with the name.
pub open spec fn detail_text(relative: Seq<char>, name: Seq<char>, separator: char) -> Seq<char> {
    if name.len() <= relative.len() && relative.subrange(relative.len() - name.len(), relative.len() as int) == name {
        without_trailing(relative.subrange(0, relative.len() - name.len()), separator)
    } else {
        Seq::empty()
    }
}

/// The directory a file's displayed path `relative` shows it in, its
/// name being `name`.
pub fn file_detail(relative: &str, name: &str, separator: char) -> (detail: String)
    ensures
        detail@ == detail_text(relative@, name@, separator),
{
    let n = relative.unicode_len();
    let m = name.unicode_len();
    if m > n {
        return String::new();
    }
    let start = n - m;
    let mut i: usize = 0;
    while i < m
        invariant
            n == relative@.len(),
            m == name@.len(),
            start == n - m,
            i <= m,
            forall|j: int| 0 <= j < i ==> relative@[start + j] == name@[j],
        decreases m - i,
    {
        if relative.get_char(start + i) != name.get_char(i) {
            proof {
                assert(relative@.subrange(start as int, n as int)[i as int] != name@[i as int]);
            }
            return String::new();
        }
        i = i + 1;
    }
    proof {
        assert(relative@.subrange(start as int, n as int) =~= name@);
    }
    let mut end = start;
    while end > 0 && relative.get_char(end - 1) == separator
        invariant
            n == relative@.len(),
            end <= start <= n,
            without_trailing(relative@.subrange(0, start as int), separator) == without_trailing(
                relative@.subrange(0, end as int),
                separator,
            ),
        decreases end,
    {
        proof {
            assert(relative@.subrange(0, end as int).drop_last() =~= relative@.subrange(
                0,
                end - 1,
            ));
        }
        end = end - 1;
    }
    proof {
        let kept = relative@.subrange(0, end as int);
        if end > 0 {
            assert(kept.last() != separator);
        }
        assert(without_trailing(kept, separator) == kept);
    }
    String::from_str(relative.substring_char(0, end))
}

} // verus!
