//! The changes page's tabs: the project's repository first, then each
//! submodule with uncommitted changes, by path, as the main
//! repository's scan finds them. The tabs come and go with the changes,
//! keeping the pages of those still listed; a shown tab that is gone
//! gives way to the main repository's.

use crate::changes_input::ChangesOutcome;
use vstd::prelude::*;

verus! {

/// The first tab from `j` on, past the main one, titled `title` and not
/// claimed already.
pub open spec fn first_free(titles: Seq<Seq<char>>, title: Seq<char>, claimed: Seq<Option<int>>, j: int) -> Option<int>
    decreases titles.len() - j,
{
    if j < 1 || j >= titles.len() {
        None
    } else if titles[j] == title && !claimed.contains(Some(j)) {
        Some(j)
    } else {
        first_free(titles, title, claimed, j + 1)
    }
}

/// For each wanted tab, the old tab whose page it keeps: the first with
/// its title that an earlier one didn't keep.
pub open spec fn kept_pages(titles: Seq<Seq<char>>, wanted: Seq<Seq<char>>) -> Seq<Option<int>>
    decreases wanted.len(),
{
    if wanted.len() == 0 {
        Seq::empty()
    } else {
        let before = kept_pages(titles, wanted.drop_last());
        before.push(first_free(titles, wanted.last(), before, 1))
    }
}

/// The first of `titles` that is `title`.
pub open spec fn title_index(titles: Seq<Seq<char>>, title: Seq<char>) -> Option<int> {
    if exists|i: int| 0 <= i < titles.len() && titles[i] == title {
        Some(
            choose|i: int|
                0 <= i < titles.len() && titles[i] == title && forall|j: int|
                    0 <= j < i ==> titles[j] != title,
        )
    } else {
        None
    }
}

/// The text of each of `strings`.
pub open spec fn texts(strings: Seq<String>) -> Seq<Seq<char>> {
    strings.map_values(|s: String| s@)
}

/// The tabs after a scan of the main repository.
pub struct SyncedTabs {
    /// The tabs' titles: the main repository's, then each wanted
    /// submodule's path.
    pub titles: Vec<String>,
    /// For each tab, the old tab whose page it keeps, if any.
    pub kept: Vec<Option<usize>>,
    /// The shown tab: the one with the title shown before, or the main
    /// repository's.
    pub active: usize,
}

/// The first of `titles` that is `title`.
pub fn find_title(titles: &Vec<String>, title: &String) -> (found: Option<usize>)
    ensures
        match found {
            Some(i) => title_index(texts(titles@), title@) == Some(i as int),
            None => title_index(texts(titles@), title@) is None,
        },
{
    let ghost all = texts(titles@);
    let mut i: usize = 0;
    while i < titles.len()
        invariant
            i <= titles@.len(),
            all == texts(titles@),
            forall|j: int| 0 <= j < i ==> all[j] != title@,
        decreases titles@.len() - i,
    {
        if titles[i].eq(title) {
            proof {
                assert(all[i as int] == title@);
            }
            return Some(i);
        }
        i = i + 1;
    }
    None
}

fn free_from(titles: &Vec<String>, title: &String, kept: &Vec<Option<usize>>) -> (found: Option<usize>)
    ensures
        match found {
            Some(j) => first_free(texts(titles@), title@, kept_view(kept@), 1) == Some(j as int),
            None => first_free(texts(titles@), title@, kept_view(kept@), 1) is None,
        },
{
    let ghost all = texts(titles@);
    let ghost claimed = kept_view(kept@);
    let mut j: usize = 1;
    while j < titles.len()
        invariant
            1 <= j,
            all == texts(titles@),
            claimed == kept_view(kept@),
            first_free(all, title@, claimed, 1) == first_free(all, title@, claimed, j as int),
        decreases titles@.len() - j,
    {
        if titles[j].eq(title) {
            let mut taken = false;
            let mut k: usize = 0;
            while k < kept.len()
                invariant
                    k <= kept@.len(),
                    claimed == kept_view(kept@),
                    taken == exists|m: int| 0 <= m < k && claimed[m] == Some(j as int),
                decreases kept@.len() - k,
            {
                match kept[k] {
                    Some(i) => {
                        if i == j {
                            taken = true;
                        }
                    },
                    None => {},
                }
                proof {
                    assert(claimed[k as int] == match kept@[k as int] {
                        Some(i) => Some(i as int),
                        None => None,
                    });
                }
                k = k + 1;
            }
            proof {
                assert(taken == claimed.contains(Some(j as int)));
            }
            if !taken {
                return Some(j);
            }
        }
        j = j + 1;
    }
    None
}

/// Indices as integers.
pub open spec fn kept_view(kept: Seq<Option<usize>>) -> Seq<Option<int>> {
    kept.map_values(|k: Option<usize>| match k {
        Some(i) => Some(i as int),
        None => None,
    })
}

/// The tabs after a scan of the main repository found the changed
/// submodules `wanted`, the tabs having been `titles` with `active`
/// shown.
pub fn sync_tabs(titles: &Vec<String>, active: usize, wanted: &Vec<String>) -> (synced: SyncedTabs)
    requires
        titles@.len() >= 1,
        active < titles@.len(),
    ensures
        texts(synced.titles@) == seq![titles@[0]@] + texts(wanted@),
        kept_view(synced.kept@) == kept_pages(texts(titles@), texts(wanted@)),
        synced.active == match title_index(texts(synced.titles@), titles@[active as int]@) {
            Some(i) => i,
            None => 0,
        },
{
    let mut kept: Vec<Option<usize>> = Vec::new();
    let mut new_titles: Vec<String> = Vec::new();
    new_titles.push(titles[0].clone());
    let mut w: usize = 0;
    while w < wanted.len()
        invariant
            w <= wanted@.len(),
            titles@.len() >= 1,
            texts(new_titles@) == seq![titles@[0]@] + texts(wanted@.take(w as int)),
            kept_view(kept@) == kept_pages(texts(titles@), texts(wanted@.take(w as int))),
        decreases wanted@.len() - w,
    {
        let found = free_from(titles, &wanted[w], &kept);
        proof {
            assert(texts(wanted@.take(w as int + 1)).drop_last() =~= texts(wanted@.take(w as int)));
            assert(texts(wanted@.take(w as int + 1)).last() == wanted@[w as int]@);
        }
        let ghost before = kept@;
        let ghost titles_before = new_titles@;
        kept.push(found);
        new_titles.push(wanted[w].clone());
        proof {
            assert(texts(new_titles@) =~= texts(titles_before).push(wanted@[w as int]@));
        }
        proof {
            assert(kept_view(kept@) =~= kept_view(before).push(
                match found {
                    Some(j) => Some(j as int),
                    None => None,
                },
            ));
            assert(texts(wanted@.take(w as int + 1)) =~= texts(wanted@.take(w as int)).push(
                wanted@[w as int]@,
            ));
            assert(texts(new_titles@) =~= seq![titles@[0]@] + texts(wanted@.take(w as int + 1)));
        }
        w = w + 1;
    }
    proof {
        assert(wanted@.take(wanted@.len() as int) =~= wanted@);
    }
    let active = match find_title(&new_titles, &titles[active]) {
        Some(i) => i,
        None => 0,
    };
    SyncedTabs { titles: new_titles, kept, active }
}

/// The tab a submodule named `path` on the shown tab goes to: its path
/// from the main repository, which for a submodule of a submodule is the
/// shown tab's path and then its own.
pub open spec fn submodule_title_text(shown: Seq<char>, shown_is_submodule: bool, path: Seq<char>) -> Seq<char> {
    if shown_is_submodule {
        shown + "/"@ + path
    } else {
        path
    }
}

/// The tab a submodule named `path` on the shown tab goes to.
pub fn submodule_title(shown: &str, shown_is_submodule: bool, path: &str) -> (title: String)
    ensures
        title@ == submodule_title_text(shown@, shown_is_submodule, path@),
{
    if shown_is_submodule {
        let mut title = String::from_str(shown);
        title.append("/");
        title.append(path);
        title
    } else {
        String::from_str(path)
    }
}

/// What following a submodule with no tab says: it has no uncommitted
/// changes of its own, so there is nothing to show.
pub fn no_tab_notice(path: &str) -> (outcome: ChangesOutcome)
    ensures
        outcome matches ChangesOutcome::Notice { text, error } && !error && text@ == path@
            + " has no uncommitted changes of its own"@,
{
    ChangesOutcome::Notice {
        text: String::from_str(path).concat(" has no uncommitted changes of its own"),
        error: false,
    }
}

/// Which tab is shown after asking for `index`: it, when there is such a
/// tab; else the one shown. Returns the tab and whether it changed.
pub fn show_tab(active: usize, count: usize, index: usize) -> (shown: (usize, bool))
    ensures
        shown == (if index < count && index != active { (index, true) } else { (active, false) }),
{
    if index < count && index != active {
        (index, true)
    } else {
        (active, false)
    }
}

} // verus!
