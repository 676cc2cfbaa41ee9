//! Per-pattern leading-edge debouncing.
//!
//! The first call fires; later ones are dropped, not queued, until a full window has passed since
//! the last call that fired. A dropped call leaves the window as it is.

use vstd::prelude::*;

use crate::time::{Clock, Duration, Moment};

verus! {

/// What a [`Debouncer`] says of a call.
#[derive(Debug, Clone, Copy, PartialEq, Eq, Structural)]
pub enum Decision {
    /// Perform the side effect.
    Fire,
    /// Leave it: the window of the last one that fired is still open.
    Drop,
}

/// A leading-edge debouncer with a window of its own.
pub struct Debouncer {
    window: Duration,
    last_fire: Option<Moment>,
    clock: Clock,
}

/// The part of a [`Debouncer`] that decides: its window, and when it last fired.
pub struct DebounceState {
    pub window: Duration,
    pub last_fire: Option<Moment>,
}

impl View for Debouncer {
    type V = DebounceState;

    closed spec fn view(&self) -> DebounceState {
        DebounceState { window: self.window, last_fire: self.last_fire }
    }
}

impl DebounceState {
    /// Whether a call at `now` fires.
    pub open spec fn fires(self, now: Moment) -> bool {
        match self.last_fire {
            None => true,
            Some(prev) => now.since(prev).nanos >= self.window.nanos,
        }
    }

    /// The decision on a call at `now`.
    pub open spec fn decision(self, now: Moment) -> Decision {
        if self.fires(now) {
            Decision::Fire
        } else {
            Decision::Drop
        }
    }

    /// The state after a call at `now`.
    pub open spec fn after(self, now: Moment) -> DebounceState {
        if self.fires(now) {
            DebounceState { window: self.window, last_fire: Some(now) }
        } else {
            self
        }
    }

    /// The decisions on calls at `times`, one after the other.
    pub open spec fn decisions(self, times: Seq<Moment>) -> Seq<Decision>
        decreases times.len(),
    {
        if times.len() == 0 {
            seq![]
        } else {
            seq![self.decision(times[0])] + self.after(times[0]).decisions(times.skip(1))
        }
    }
}

impl Debouncer {
    /// A debouncer that has not fired yet. With a window of zero every call fires.
    pub fn new(window: Duration) -> (r: Debouncer)
        ensures
            r@.window == window,
            r@.last_fire is None,
    {
        Debouncer { window, last_fire: None, clock: Clock::start() }
    }

    /// The clock that the debouncer goes by.
    pub closed spec fn clock(&self) -> Clock {
        self.clock
    }

    /// What the debouncer's clock shows.
    pub(crate) fn now(&self) -> (r: Moment)
        ensures
            self.clock().shows(r),
    {
        self.clock.now()
    }

    /// Decide on a call that is made now, and remember it if it fires.
    ///
    /// When now is, the debouncer's clock says: the decision is that on a reading of it.
    pub fn check_and_update(&mut self) -> (r: Decision)
        ensures
            exists|now: Moment|
                old(self).clock().shows(now) && #[trigger] old(self)@.decision(now) == r
                    && final(self)@ == old(self)@.after(now),
            final(self).clock() == old(self).clock(),
    {
        let now = self.now();
        let r = self.check_and_update_at(now);
        assert(old(self)@.decision(now) == r);
        r
    }

    /// Decide on a call made at `now`, and remember it if it fires.
    pub fn check_and_update_at(&mut self, now: Moment) -> (r: Decision)
        ensures
            r == old(self)@.decision(now),
            final(self)@ == old(self)@.after(now),
            final(self).clock() == old(self).clock(),
    {
        let should_fire = match self.last_fire {
            None => true,
            Some(prev) => now.saturating_duration_since(prev).nanos >= self.window.nanos,
        };
        if should_fire {
            self.last_fire = Some(now);
            Decision::Fire
        } else {
            Decision::Drop
        }
    }
}

/// The first call fires, whatever the window.
pub proof fn law_first_call_fires(window: Duration, now: Moment)
    ensures
        (DebounceState { window, last_fire: None }).decision(now) == Decision::Fire,
        (DebounceState { window, last_fire: None }).fires(now),
        (DebounceState { window, last_fire: None }).after(now) == (DebounceState {
            window,
            last_fire: Some(now),
        }),
{
}

/// With a window of zero every call fires.
pub proof fn law_zero_window_always_fires(s: DebounceState, now: Moment)
    requires
        s.window.nanos == 0,
    ensures
        s.decision(now) == Decision::Fire,
{
}

/// A dropped call changes nothing: the window counts from the last call that fired, not from the
/// last attempt.
pub proof fn law_drop_keeps_the_window(s: DebounceState, now: Moment)
    requires
        s.decision(now) == Decision::Drop,
    ensures
        s.after(now) == s,
{
}

/// A call that fires opens a window: each later call inside of it is dropped, and the first one
/// at its end or behind it fires.
pub proof fn law_fire_opens_a_window(s: DebounceState, fired: Moment, later: Moment)
    requires
        s.decision(fired) == Decision::Fire,
        later.nanos >= fired.nanos,
    ensures
        s.after(fired).decision(later) == Decision::Drop <==> later.nanos - fired.nanos
            < s.window.nanos,
{
}

/// Whether a call fires hangs on the last call that fired alone: it does where there was none, and
/// where at least the window has passed since. It then is the last one itself.
pub proof fn law_a_call_fires_after_the_window(s: DebounceState, prev: Moment, now: Moment)
    requires
        s.last_fire == Some(prev),
    ensures
        now.nanos >= prev.nanos ==> (s.decision(now) == Decision::Fire <==> now.nanos - prev.nanos
            >= s.window.nanos),
        now.nanos < prev.nanos ==> (s.decision(now) == Decision::Fire <==> s.window.nanos == 0),
        s.fires(now) <==> s.decision(now) == Decision::Fire,
        s.after(now).window == s.window,
        s.after(now).last_fire == Some(
            if s.decision(now) == Decision::Fire {
                now
            } else {
                prev
            },
        ),
{
}

/// A burst of calls inside one window fires exactly once: the first call fires, and all others
/// are dropped.
pub proof fn law_burst_fires_once(s: DebounceState, times: Seq<Moment>)
    requires
        times.len() > 0,
        s.fires(times[0]),
        forall|i: int|
            0 < i < times.len() ==> times[0].nanos <= (#[trigger] times[i]).nanos < times[0].nanos
                + s.window.nanos,
    ensures
        s.decisions(times).len() == times.len(),
        s.decisions(times)[0] == Decision::Fire,
        forall|i: int| 0 < i < times.len() ==> #[trigger] s.decisions(times)[i] == Decision::Drop,
{
    let rest = times.skip(1);
    assert forall|i: int| 0 <= i < rest.len() implies times[0].nanos <= (
    #[trigger] rest[i]).nanos < times[0].nanos + s.window.nanos by {
        assert(rest[i] == times[i + 1]);
    }
    lemma_inside_window_drops(s.after(times[0]), times[0], rest);
}

/// Calls inside the window of the last fire are all dropped.
proof fn lemma_inside_window_drops(s: DebounceState, fired: Moment, times: Seq<Moment>)
    requires
        s.last_fire == Some(fired),
        forall|i: int|
            0 <= i < times.len() ==> fired.nanos <= (#[trigger] times[i]).nanos < fired.nanos
                + s.window.nanos,
    ensures
        s.decisions(times) == Seq::new(times.len(), |i: int| Decision::Drop),
    decreases times.len(),
{
    if times.len() > 0 {
        let rest = times.skip(1);
        assert forall|i: int| 0 <= i < rest.len() implies fired.nanos <= (
        #[trigger] rest[i]).nanos < fired.nanos + s.window.nanos by {
            assert(rest[i] == times[i + 1]);
        }
        assert(times[0].nanos < fired.nanos + s.window.nanos);
        assert(s.after(times[0]) == s);
        lemma_inside_window_drops(s, fired, rest);
    }
    assert(s.decisions(times) =~= Seq::new(times.len(), |i: int| Decision::Drop));
}

} // verus!
