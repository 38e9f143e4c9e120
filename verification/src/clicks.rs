//! Double-click detection. The terminal reports each button press on its
//! own, so a double-click is two presses on the same cell within
//! [`DOUBLE_CLICK_NANOS`] of each other.

use std::time::Instant;
use vstd::prelude::*;

verus! {

#[verifier::external_type_specification]
#[verifier::external_body]
pub struct ExInstant(Instant);

/// The most time between two presses that still makes a double-click,
/// in nanoseconds: half a second.
pub const DOUBLE_CLICK_NANOS: u128 = 500_000_000u128;

/// The nanoseconds from `then` to `now`, none if `now` is earlier.
pub uninterp spec fn nanos_between(then: Instant, now: Instant) -> nat;

/// The time from `then` to `now` in nanoseconds, or none if `now` is the
/// earlier: `Instant::saturating_duration_since`, read as a count of
/// nanoseconds. The claim is only that the result is that measure of the
/// two instants.
#[verifier::external_body]
fn elapsed_nanos(then: Instant, now: Instant) -> (nanos: u128)
    ensures
        nanos == nanos_between(then, now),
{
    now.saturating_duration_since(then).as_nanos()
}

/// The current time: `Instant::now`. Nothing is claimed of it.
#[verifier::external_body]
fn instant_now() -> Instant {
    Instant::now()
}

/// Whether a press at `(x, y)` at `now` continues a double-click after
/// the last press: on the same cell, soon enough, and not after a
/// double-click already made.
pub open spec fn repeats(last: Option<(Instant, u16, u16)>, count: u32, x: u16, y: u16, now: Instant) -> bool {
    match last {
        Some((then, lx, ly)) => lx == x && ly == y && nanos_between(then, now)
            <= DOUBLE_CLICK_NANOS && count < 2,
        None => false,
    }
}

/// The count a press at `(x, y)` at `now` makes after the last press and
/// `count` presses in a row: one more when it repeats, else 1.
pub open spec fn after_press(last: Option<(Instant, u16, u16)>, count: u32, x: u16, y: u16, now: Instant) -> int {
    if repeats(last, count, x, y, now) {
        count + 1
    } else {
        1
    }
}

/// Counts consecutive presses on one cell.
#[derive(Clone, Copy, Debug)]
pub struct ClickTracker {
    last: Option<(Instant, u16, u16)>,
    count: u32,
}

impl ClickTracker {
    #[verifier::type_invariant]
    spec fn counted(self) -> bool {
        self.count <= 2
    }

    /// The last press: when and where.
    pub closed spec fn last_press(&self) -> Option<(Instant, u16, u16)> {
        self.last
    }

    /// How many presses in a row the last one made: 1, or 2 for a
    /// double-click; 0 before any.
    pub closed spec fn presses(&self) -> u32 {
        self.count
    }

    /// Record a press at a screen position now. Returns 1 for a single
    /// click and 2 for the second press of a double-click; a third press
    /// starts over, so clicking on and on alternates the two.
    pub fn press(&mut self, x: u16, y: u16) -> (count: u32)
        ensures
            count == final(self).presses(),
            final(self).last_press() matches Some((_, lx, ly)) && lx == x && ly == y,
            count == 1 || {
                &&& count == 2
                &&& old(self).presses() == 1
                &&& old(self).last_press() matches Some((_, lx, ly)) && lx == x && ly == y
            },
            exists|now: Instant|
                final(self).last_press() == Some((now, x, y)) && count == #[trigger] after_press(
                    old(self).last_press(),
                    old(self).presses(),
                    x,
                    y,
                    now,
                ),
    {
        let now = instant_now();
        let ghost before = *self;
        let count = self.press_at(x, y, now);
        proof {
            assert(count == after_press(before.last_press(), before.presses(), x, y, now));
        }
        count
    }

    /// [`press`](Self::press) at a given time.
    pub fn press_at(&mut self, x: u16, y: u16, now: Instant) -> (count: u32)
        ensures
            final(self).last_press() == Some((now, x, y)),
            final(self).presses() == after_press(old(self).last_press(), old(self).presses(), x, y, now),
            count == final(self).presses(),
            count == 1 || count == 2,
    {
        proof {
            use_type_invariant(&*self);
        }
        let repeat = match self.last {
            Some((then, lx, ly)) => lx == x && ly == y && elapsed_nanos(then, now) <= DOUBLE_CLICK_NANOS
                && self.count < 2,
            None => false,
        };
        self.count = if repeat {
            self.count + 1
        } else {
            1
        };
        self.last = Some((now, x, y));
        self.count
    }
}

impl Default for ClickTracker {
    fn default() -> (tracker: ClickTracker)
        ensures
            tracker.last_press() is None,
            tracker.presses() == 0,
    {
        ClickTracker { last: None, count: 0 }
    }
}

/// The last press and the count after presses on `(x, y)` at each of
/// `times` in turn, starting from a tracker that has seen none.
pub open spec fn run_on_cell(times: Seq<Instant>, x: u16, y: u16) -> (Option<(Instant, u16, u16)>, u32)
    decreases times.len(),
{
    if times.len() == 0 {
        (None, 0)
    } else {
        let (last, count) = run_on_cell(times.drop_last(), x, y);
        (Some((times.last(), x, y)), after_press(last, count, x, y, times.last()) as u32)
    }
}

/// Whether each of `times` comes soon enough after the one before to
/// continue a double-click.
pub open spec fn quick_run(times: Seq<Instant>) -> bool {
    forall|i: int|
        0 < i < times.len() ==> #[trigger] nanos_between(times[i - 1], times[i]) <= DOUBLE_CLICK_NANOS
}

/// Quick presses on one cell, from a tracker that has seen none, count
/// 1, 2, 1, 2, ...: the first press of each pair is a single click, the
/// second a double-click, and a third never counts 3 but starts over.
pub proof fn quick_presses_alternate(times: Seq<Instant>, x: u16, y: u16)
    requires
        quick_run(times),
        times.len() > 0,
    ensures
        run_on_cell(times, x, y).1 == (if times.len() % 2 == 1 { 1u32 } else { 2u32 }),
    decreases times.len(),
{
    if times.len() > 1 {
        let before = times.drop_last();
        assert forall|i: int| 0 < i < before.len() implies #[trigger] nanos_between(before[i - 1], before[i])
            <= DOUBLE_CLICK_NANOS by {
            assert(before[i - 1] == times[i - 1] && before[i] == times[i]);
            assert(nanos_between(times[i - 1], times[i]) <= DOUBLE_CLICK_NANOS);
        }
        quick_presses_alternate(before, x, y);
        let n = times.len() as int;
        assert(before.last() == times[n - 2]);
        assert(nanos_between(times[n - 2], times[n - 1]) <= DOUBLE_CLICK_NANOS);
        let (last, count) = run_on_cell(before, x, y);
        assert(last == Some((times[n - 2], x, y)));
        assert(n % 2 == 1 ==> (n - 1) % 2 == 0);
        assert(n % 2 == 0 ==> (n - 1) % 2 == 1);
        assert(times.last() == times[n - 1]);
        assert(repeats(last, count, x, y, times.last()) == (count < 2));
    } else {
        assert(times.drop_last().len() == 0);
        assert(run_on_cell(times.drop_last(), x, y) == (None::<(Instant, u16, u16)>, 0u32));
    }
}

} // verus!
