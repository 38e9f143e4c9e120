//! One of the changes page's file lists, as far as it is the page's own:
//! which directories were folded by hand, kept by path across the scans
//! (even through the list emptying and filling again), and which row is
//! selected, kept on the same directory or file when the rows are built
//! afresh.

use vstd::prelude::*;

verus! {

/// What a row of a list stands for, by path, for keeping the selection
/// across a rebuild of the tree.
#[derive(Clone, Debug)]
pub enum RowKey {
    Dir(String),
    File(String),
}

/// A row's key as a directory flag and a path.
pub open spec fn key_view(key: RowKey) -> (bool, Seq<char>) {
    match key {
        RowKey::Dir(p) => (true, p@),
        RowKey::File(p) => (false, p@),
    }
}

/// The keys as directory flags and paths.
pub open spec fn keys_view(keys: Seq<RowKey>) -> Seq<(bool, Seq<char>)> {
    keys.map_values(|k: RowKey| key_view(k))
}

/// Whether two keys stand for the same row.
pub fn same_key(a: &RowKey, b: &RowKey) -> (same: bool)
    ensures
        same == (key_view(*a) == key_view(*b)),
{
    match (a, b) {
        (RowKey::Dir(x), RowKey::Dir(y)) => x.eq(y),
        (RowKey::File(x), RowKey::File(y)) => x.eq(y),
        _ => false,
    }
}

/// The first row whose key is `key`.
pub open spec fn position_of(keys: Seq<(bool, Seq<char>)>, key: (bool, Seq<char>)) -> Option<int> {
    if exists|i: int| 0 <= i < keys.len() && keys[i] == key {
        Some(
            choose|i: int|
                0 <= i < keys.len() && keys[i] == key && forall|j: int| 0 <= j < i ==> keys[j] != key,
        )
    } else {
        None
    }
}

/// The first row whose key is `key`.
pub fn find_key(keys: &Vec<RowKey>, key: &RowKey) -> (found: Option<usize>)
    ensures
        match found {
            Some(i) => position_of(keys_view(keys@), key_view(*key)) == Some(i as int),
            None => position_of(keys_view(keys@), key_view(*key)) is None,
        },
{
    let ghost all = keys_view(keys@);
    let mut i: usize = 0;
    while i < keys.len()
        invariant
            i <= keys@.len(),
            all == keys_view(keys@),
            forall|j: int| 0 <= j < i ==> all[j] != key_view(*key),
        decreases keys@.len() - i,
    {
        if same_key(&keys[i], key) {
            proof {
                assert(all[i as int] == key_view(*key));
            }
            return Some(i);
        }
        i = i + 1;
    }
    None
}

/// The row selected after the rows were built afresh as `keys`: the one
/// that was selected (`previous`), wherever it went, else the same place
/// or the last row.
pub open spec fn kept_row(keys: Seq<(bool, Seq<char>)>, previous: Option<(bool, Seq<char>)>, selected: int) -> int {
    let at = match previous {
        Some(key) => match position_of(keys, key) {
            Some(i) => i,
            None => selected,
        },
        None => selected,
    };
    let last = if keys.len() > 0 { keys.len() - 1 } else { 0 };
    if at < last { at } else { last }
}

/// The row selected after the rows were built afresh as `keys`.
pub fn keep_selection(keys: &Vec<RowKey>, previous: Option<&RowKey>, selected: usize) -> (row: usize)
    ensures
        row == kept_row(
            keys_view(keys@),
            match previous {
                Some(k) => Some(key_view(*k)),
                None => None,
            },
            selected as int,
        ),
{
    let at = match previous {
        Some(key) => match find_key(keys, key) {
            Some(i) => i,
            None => selected,
        },
        None => selected,
    };
    let last = keys.len().saturating_sub(1);
    if at < last {
        at
    } else {
        last
    }
}

/// The row selected after a directory was folded or unfolded and the
/// rows built afresh: the one that was selected where it still shows,
/// else the directory's own row; none when neither shows.
pub open spec fn row_after_fold(keys: Seq<(bool, Seq<char>)>, previous: Option<(bool, Seq<char>)>, dir: Seq<char>) -> Option<int> {
    let kept = match previous {
        Some(key) => position_of(keys, key),
        None => None,
    };
    match kept {
        Some(i) => Some(i),
        None => position_of(keys, (true, dir)),
    }
}

/// The row selected after a directory at `dir` was folded or unfolded.
pub fn select_after_fold(keys: &Vec<RowKey>, previous: Option<&RowKey>, dir: &String) -> (row: Option<usize>)
    ensures
        match row {
            Some(i) => row_after_fold(
                keys_view(keys@),
                match previous {
                    Some(k) => Some(key_view(*k)),
                    None => None,
                },
                dir@,
            ) == Some(i as int),
            None => row_after_fold(
                keys_view(keys@),
                match previous {
                    Some(k) => Some(key_view(*k)),
                    None => None,
                },
                dir@,
            ) is None,
        },
{
    let kept = match previous {
        Some(key) => find_key(keys, key),
        None => None,
    };
    match kept {
        Some(i) => Some(i),
        None => {
            let key = RowKey::Dir(dir.clone());
            find_key(keys, &key)
        },
    }
}

/// The paths of the directories folded by hand.
pub struct Folds {
    folded: Vec<String>,
}

/// The texts of `paths`.
pub open spec fn paths_view(paths: Seq<String>) -> Seq<Seq<char>> {
    paths.map_values(|p: String| p@)
}

impl Folds {
    /// No path is listed twice.
    #[verifier::type_invariant]
    spec fn distinct(self) -> bool {
        paths_view(self.folded@).no_duplicates()
    }

    /// The directories folded by hand, by path.
    pub closed spec fn folded_set(&self) -> Set<Seq<char>> {
        Set::new(|p: Seq<char>| paths_view(self.folded@).contains(p))
    }

    /// None folded.
    pub fn new() -> (folds: Folds)
        ensures
            folds.folded_set() == Set::<Seq<char>>::empty(),
    {
        let folds = Folds { folded: Vec::new() };
        proof {
            assert(paths_view(folds.folded@) =~= Seq::<Seq<char>>::empty());
            assert(folds.folded_set() =~= Set::<Seq<char>>::empty());
        }
        folds
    }

    /// Whether the directory at `path` was folded by hand.
    pub fn is_folded(&self, path: &String) -> (folded: bool)
        ensures
            folded == self.folded_set().contains(path@),
    {
        let ghost all = paths_view(self.folded@);
        let mut i: usize = 0;
        while i < self.folded.len()
            invariant
                i <= self.folded@.len(),
                all == paths_view(self.folded@),
                forall|j: int| 0 <= j < i ==> all[j] != path@,
            decreases self.folded@.len() - i,
        {
            if self.folded[i].eq(path) {
                proof {
                    assert(all[i as int] == path@);
                    assert(all.contains(path@));
                }
                return true;
            }
            i = i + 1;
        }
        false
    }

    /// Note that the directory at `path` was folded (`collapsed`) or
    /// unfolded by hand.
    pub fn set(&mut self, path: &String, collapsed: bool)
        ensures
            collapsed ==> final(self).folded_set() == old(self).folded_set().insert(path@),
            !collapsed ==> final(self).folded_set() == old(self).folded_set().remove(path@),
    {
        proof {
            use_type_invariant(&*self);
        }
        let ghost before = paths_view(self.folded@);
        let mut kept: Vec<String> = Vec::new();
        let mut i: usize = 0;
        while i < self.folded.len()
            invariant
                i <= self.folded@.len(),
                before == paths_view(self.folded@),
                before.no_duplicates(),
                paths_view(kept@).no_duplicates(),
                forall|p: Seq<char>|
                    #[trigger] paths_view(kept@).contains(p) <==> (before.take(i as int).contains(p)
                        && p != path@),
            decreases self.folded@.len() - i,
        {
            let ghost old_kept = paths_view(kept@);
            let ghost prefix = before.take(i as int);
            let ghost grown = before.take(i as int + 1);
            proof {
                assert(grown =~= prefix.push(before[i as int]));
                assert(!prefix.contains(before[i as int])) by {
                    if prefix.contains(before[i as int]) {
                        let m = choose|m: int| 0 <= m < prefix.len() && prefix[m] == before[i as int];
                        assert(before[m] == before[i as int]);
                    }
                }
                assert forall|p: Seq<char>| grown.contains(p) <==> (prefix.contains(p) || p == before[i as int]) by {
                    if grown.contains(p) {
                        let m = choose|m: int| 0 <= m < grown.len() && grown[m] == p;
                        if m < i {
                            assert(prefix[m] == p);
                        }
                    }
                    if prefix.contains(p) {
                        let m = choose|m: int| 0 <= m < prefix.len() && prefix[m] == p;
                        assert(grown[m] == p);
                    }
                    if p == before[i as int] {
                        assert(grown[i as int] == p);
                    }
                }
            }
            if !self.folded[i].eq(path) {
                kept.push(self.folded[i].clone());
                proof {
                    let now = paths_view(kept@);
                    assert(now =~= old_kept.push(before[i as int]));
                    assert(!old_kept.contains(before[i as int]));
                    assert forall|p: Seq<char>| now.contains(p) <==> (old_kept.contains(p) || p == before[i as int]) by {
                        if now.contains(p) {
                            let m = choose|m: int| 0 <= m < now.len() && now[m] == p;
                            if m < old_kept.len() {
                                assert(old_kept[m] == p);
                            }
                        }
                        if old_kept.contains(p) {
                            let m = choose|m: int| 0 <= m < old_kept.len() && old_kept[m] == p;
                            assert(now[m] == p);
                        }
                        if p == before[i as int] {
                            assert(now[old_kept.len() as int] == p);
                        }
                    }
                }
            }
            i = i + 1;
        }
        proof {
            assert(before.take(before.len() as int) =~= before);
        }
        if collapsed {
            let ghost old_kept = paths_view(kept@);
            kept.push(path.clone());
            proof {
                let now = paths_view(kept@);
                assert(now =~= old_kept.push(path@));
                assert(!old_kept.contains(path@));
                assert forall|p: Seq<char>| now.contains(p) <==> (old_kept.contains(p) || p == path@) by {
                    if now.contains(p) {
                        let m = choose|m: int| 0 <= m < now.len() && now[m] == p;
                        if m < old_kept.len() {
                            assert(old_kept[m] == p);
                        }
                    }
                    if old_kept.contains(p) {
                        let m = choose|m: int| 0 <= m < old_kept.len() && old_kept[m] == p;
                        assert(now[m] == p);
                    }
                    if p == path@ {
                        assert(now[old_kept.len() as int] == p);
                    }
                }
            }
        }
        self.folded = kept;
        proof {
            if collapsed {
                assert(self.folded_set() =~= old(self).folded_set().insert(path@));
            } else {
                assert(self.folded_set() =~= old(self).folded_set().remove(path@));
            }
        }
    }

    /// For each of the tree's directories, by path, whether it is folded.
    pub fn collapsed(&self, dirs: &Vec<String>) -> (collapsed: Vec<bool>)
        ensures
            collapsed@.len() == dirs@.len(),
            forall|i: int|
                0 <= i < dirs@.len() ==> collapsed@[i] == self.folded_set().contains(
                    #[trigger] dirs@[i]@,
                ),
    {
        let mut collapsed: Vec<bool> = Vec::new();
        let mut i: usize = 0;
        while i < dirs.len()
            invariant
                i <= dirs@.len(),
                collapsed@.len() == i,
                forall|j: int|
                    0 <= j < i ==> collapsed@[j] == self.folded_set().contains(#[trigger] dirs@[j]@),
            decreases dirs@.len() - i,
        {
            let folded = self.is_folded(&dirs[i]);
            collapsed.push(folded);
            i = i + 1;
        }
        collapsed
    }
}

/// A directory folded by hand stays folded however the lists are built
/// afresh, until it is unfolded by hand.
pub proof fn a_folded_directory_stays_folded(before: Set<Seq<char>>, path: Seq<char>, other: Seq<char>)
    requires
        other != path,
    ensures
        before.insert(path).contains(path),
        before.insert(path).remove(other).contains(path),
        before.insert(path).insert(other).contains(path),
        !before.insert(path).remove(path).contains(path),
{
}

} // verus!
