//! The orders the palettes list things in. The modes palette lists the
//! view the keyboard is on, then the others most recently used first,
//! then the ones never used, so that the one before this is preselected
//! and Ctrl+E, Enter goes back to it, whichever way the user came. The
//! command palette lists whatever it last ran first, so Ctrl+P, Enter
//! repeats it. The git pages' tab search lists the shown repository
//! first, so Enter alone flips to the next. Views are named here by
//! their place in the list of every view.

use vstd::prelude::*;

verus! {

/// `views` without `a` and `b`, in order.
pub open spec fn dropping(views: Seq<u32>, a: u32, b: u32) -> Seq<u32>
    decreases views.len(),
{
    if views.len() == 0 {
        views
    } else {
        let rest = dropping(views.drop_last(), a, b);
        if views.last() != a && views.last() != b {
            rest.push(views.last())
        } else {
            rest
        }
    }
}

/// The views of `all` that `listed` doesn't hold, in order.
pub open spec fn missing_from(all: Seq<u32>, listed: Seq<u32>) -> Seq<u32>
    decreases all.len(),
{
    if all.len() == 0 {
        all
    } else {
        let rest = missing_from(all.drop_last(), listed);
        if listed.contains(all.last()) {
            rest
        } else {
            rest.push(all.last())
        }
    }
}

/// Note that the keyboard is on `current` now, having been on `last`:
/// the history (most recent last) gains the view left, and holds neither
/// it nor the current one anywhere else. Staying put changes nothing.
pub fn track_view(history: &mut Vec<u32>, last: &mut u32, current: u32)
    ensures
        current == *old(last) ==> *final(history) == *old(history) && *final(last) == *old(last),
        current != *old(last) ==> {
            &&& *final(last) == current
            &&& final(history)@ == dropping(old(history)@, *old(last), current).push(*old(last))
        },
{
    if current == *last {
        return;
    }
    let previous = *last;
    *last = current;
    let mut kept: Vec<u32> = Vec::new();
    let mut i: usize = 0;
    while i < history.len()
        invariant
            i <= history@.len(),
            kept@ == dropping(history@.take(i as int), previous, current),
        decreases history@.len() - i,
    {
        proof {
            assert(history@.take(i as int + 1).drop_last() =~= history@.take(i as int));
        }
        let view = history[i];
        if view != previous && view != current {
            kept.push(view);
        }
        i = i + 1;
    }
    proof {
        assert(history@.take(history@.len() as int) =~= history@);
    }
    kept.push(previous);
    *history = kept;
}

/// The modes palette's order: the current view, then the history most
/// recent first, then every other view in the order of `all`.
pub open spec fn modes_order_of(current: u32, history: Seq<u32>, all: Seq<u32>) -> Seq<u32> {
    let listed = seq![current] + history.reverse();
    listed + missing_from(all, listed)
}

/// The modes palette's order.
pub fn modes_order(current: u32, history: &Vec<u32>, all: &Vec<u32>) -> (order: Vec<u32>)
    ensures
        order@ == modes_order_of(current, history@, all@),
{
    let mut listed: Vec<u32> = Vec::new();
    listed.push(current);
    let mut i: usize = history.len();
    while i > 0
        invariant
            i <= history@.len(),
            listed@ == seq![current] + history@.subrange(i as int, history@.len() as int).reverse(),
        decreases i,
    {
        i = i - 1;
        let ghost before = listed@;
        listed.push(history[i]);
        proof {
            assert(history@.subrange(i as int, history@.len() as int).reverse() =~= history@.subrange(
                i as int + 1,
                history@.len() as int,
            ).reverse().push(history@[i as int]));
        }
    }
    proof {
        assert(history@.subrange(0, history@.len() as int) =~= history@);
    }
    let ghost fixed = listed@;
    let mut order = listed.clone();
    let mut k: usize = 0;
    while k < all.len()
        invariant
            k <= all@.len(),
            listed@ == fixed,
            order@ == fixed + missing_from(all@.take(k as int), fixed),
        decreases all@.len() - k,
    {
        proof {
            assert(all@.take(k as int + 1).drop_last() =~= all@.take(k as int));
        }
        let view = all[k];
        let mut found = false;
        let mut j: usize = 0;
        while j < listed.len()
            invariant
                j <= listed@.len(),
                listed@ == fixed,
                found == exists|m: int| 0 <= m < j && fixed[m] == view,
            decreases listed@.len() - j,
        {
            if listed[j] == view {
                found = true;
            }
            j = j + 1;
        }
        proof {
            assert(found == fixed.contains(view));
        }
        if !found {
            let ghost before = order@;
            order.push(view);
            proof {
                assert(order@ =~= fixed + missing_from(all@.take(k as int), fixed).push(view));
            }
        }
        k = k + 1;
    }
    proof {
        assert(all@.take(all@.len() as int) =~= all@);
    }
    order
}

/// Having moved from one view to another, the modes palette lists the
/// view now current first and the one just left second, so Enter on the
/// preselected second row goes back to it.
pub proof fn the_view_left_is_listed_second(history: Seq<u32>, left: u32, current: u32, all: Seq<u32>)
    requires
        left != current,
    ensures
        modes_order_of(current, dropping(history, left, current).push(left), all)[0] == current,
        modes_order_of(current, dropping(history, left, current).push(left), all)[1] == left,
{
    let h = dropping(history, left, current).push(left);
    assert(h.reverse()[0] == left);
}

/// The order of `count` entries with the one at `first` moved to the
/// front, the rest in order: the last command run, or the shown tab.
pub open spec fn first_then_rest(count: nat, first: Option<nat>) -> Seq<nat> {
    match first {
        Some(f) => if f < count {
            seq![f] + Seq::new(count, |i: int| i as nat).remove(f as int)
        } else {
            Seq::new(count, |i: int| i as nat)
        },
        None => Seq::new(count, |i: int| i as nat),
    }
}

/// The order of `count` entries with the one at `first`, if there is
/// such an entry, moved to the front.
pub fn front_first(count: usize, first: Option<usize>) -> (order: Vec<usize>)
    ensures
        order@.map_values(|i: usize| i as nat) == first_then_rest(
            count as nat,
            match first {
                Some(f) => Some(f as nat),
                None => None,
            },
        ),
{
    let lead = match first {
        Some(f) => if f < count {
            Some(f)
        } else {
            None
        },
        None => None,
    };
    let mut order: Vec<usize> = Vec::new();
    if let Some(f) = lead {
        order.push(f);
    }
    let ghost start = order@.map_values(|i: usize| i as nat);
    let mut i: usize = 0;
    while i < count
        invariant
            i <= count,
            start == (match lead {
                Some(f) => seq![f as nat],
                None => Seq::<nat>::empty(),
            }),
            order@.map_values(|i: usize| i as nat) == start + (match lead {
                Some(f) => Seq::new(i as nat, |k: int| k as nat).filter(|k: nat| k != f as nat),
                None => Seq::new(i as nat, |k: int| k as nat),
            }),
        decreases count - i,
    {
        proof {
            reveal(Seq::filter);
        }
        let ghost before = order@.map_values(|i: usize| i as nat);
        let skip = match lead {
            Some(f) => f == i,
            None => false,
        };
        if !skip {
            order.push(i);
        }
        proof {
            let grown = Seq::new((i + 1) as nat, |k: int| k as nat);
            assert(grown.drop_last() =~= Seq::new(i as nat, |k: int| k as nat));
            assert(grown.last() == i as nat);
            if !skip {
                assert(order@.map_values(|i: usize| i as nat) =~= before.push(i as nat));
            }
        }
        i = i + 1;
    }
    proof {
        if let Some(f) = lead {
            let all = Seq::new(count as nat, |k: int| k as nat);
            assert(all.filter(|k: nat| k != f as nat) =~= all.remove(f as int)) by {
                lemma_filter_out_one(count as nat, f as nat);
            }
        }
    }
    order
}

proof fn lemma_filter_out_one(count: nat, f: nat)
    requires
        f < count,
    ensures
        Seq::new(count, |k: int| k as nat).filter(|k: nat| k != f) =~= Seq::new(
            count,
            |k: int| k as nat,
        ).remove(f as int),
    decreases count,
{
    reveal(Seq::filter);
    let all = Seq::new(count, |k: int| k as nat);
    let shorter = Seq::new((count - 1) as nat, |k: int| k as nat);
    assert(all.drop_last() =~= shorter);
    if f + 1 == count {
        lemma_filter_all(shorter, f);
        assert(shorter =~= all.remove(f as int));
    } else {
        lemma_filter_out_one((count - 1) as nat, f);
        assert(shorter.remove(f as int).push((count - 1) as nat) =~= all.remove(f as int));
    }
}

proof fn lemma_filter_all(s: Seq<nat>, f: nat)
    requires
        forall|i: int| 0 <= i < s.len() ==> s[i] != f,
    ensures
        s.filter(|k: nat| k != f) =~= s,
    decreases s.len(),
{
    reveal(Seq::filter);
    if s.len() > 0 {
        lemma_filter_all(s.drop_last(), f);
    }
}

} // verus!
