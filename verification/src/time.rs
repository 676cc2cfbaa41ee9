//! Spans of time, readings of the monotonic clock, and the wall clock.

use vstd::prelude::*;

verus! {

/// A span of time, in nanoseconds.
#[derive(Debug, Clone, Copy, PartialEq, Eq, Structural)]
pub struct Duration {
    pub nanos: u128,
}

impl Duration {
    /// A span of `ms` milliseconds.
    pub fn from_millis(ms: u64) -> (r: Duration)
        ensures
            r.nanos == ms * 1_000_000,
    {
        Duration { nanos: ms as u128 * 1_000_000 }
    }

    /// A span of `secs` seconds.
    pub fn from_secs(secs: u64) -> (r: Duration)
        ensures
            r.nanos == secs * 1_000_000_000,
    {
        Duration { nanos: secs as u128 * 1_000_000_000 }
    }
}

/// A reading of a [`Clock`]: the nanoseconds since it was started.
#[derive(Debug, Clone, Copy, PartialEq, Eq, Structural)]
pub struct Moment {
    pub nanos: u128,
}

impl Moment {
    /// The span from `earlier` to `self`, zero where `earlier` is the later one.
    pub open spec fn since(self, earlier: Moment) -> Duration {
        if self.nanos >= earlier.nanos {
            Duration { nanos: (self.nanos - earlier.nanos) as u128 }
        } else {
            Duration { nanos: 0 }
        }
    }

    /// The span from `earlier` to `self`, zero where `earlier` is the later one.
    pub fn saturating_duration_since(&self, earlier: Moment) -> (r: Duration)
        ensures
            r == self.since(earlier),
    {
        if self.nanos >= earlier.nanos {
            Duration { nanos: self.nanos - earlier.nanos }
        } else {
            Duration { nanos: 0 }
        }
    }
}

/// `tokio::time::Instant`, a point on the runtime's monotonic clock.
#[verifier::external_type_specification]
#[verifier::external_body]
pub struct ExTokioInstant(tokio::time::Instant);

/// `tokio::time::Instant::now` reads the clock; what it returns depends on when it is called.
pub assume_specification[ tokio::time::Instant::now ]() -> tokio::time::Instant;

/// The span from `earlier` to `later` in nanoseconds, as
/// `tokio::time::Instant::saturating_duration_since` gives it.
pub uninterp spec fn nanos_from(earlier: tokio::time::Instant, later: tokio::time::Instant) -> u128;

/// `tokio::time::Instant::saturating_duration_since`, in nanoseconds: a function of the two points
/// alone.
#[verifier::external_body]
fn nanos_between(earlier: &tokio::time::Instant, later: &tokio::time::Instant) -> (r: u128)
    ensures
        r == nanos_from(*earlier, *later),
{
    later.saturating_duration_since(*earlier).as_nanos()
}

/// The monotonic clock, counted from when it was started.
pub struct Clock {
    origin: tokio::time::Instant,
}

impl Clock {
    /// The point that the clock counts from.
    pub closed spec fn origin(&self) -> tokio::time::Instant {
        self.origin
    }

    /// What the clock shows at `point`.
    pub open spec fn reading(&self, point: tokio::time::Instant) -> Moment {
        Moment { nanos: nanos_from(self.origin(), point) }
    }

    /// Whether `moment` is what the clock shows at some point.
    pub open spec fn shows(&self, moment: Moment) -> bool {
        exists|point: tokio::time::Instant| moment == #[trigger] self.reading(point)
    }

    /// A clock that counts from `origin`.
    pub fn started_at(origin: tokio::time::Instant) -> (r: Clock)
        ensures
            r.origin() == origin,
    {
        Clock { origin }
    }

    /// A clock that counts from now. Which point that is depends on when it is called.
    pub fn start() -> Clock {
        Clock::started_at(tokio::time::Instant::now())
    }

    /// What the clock shows at `point`.
    pub fn reading_at(&self, point: &tokio::time::Instant) -> (r: Moment)
        ensures
            r == self.reading(*point),
            r.nanos == nanos_from(self.origin(), *point),
    {
        Moment { nanos: nanos_between(&self.origin, point) }
    }

    /// What the clock shows now: its reading at the point at which it is called.
    pub(crate) fn now(&self) -> (r: Moment)
        ensures
            self.shows(r),
    {
        let point = tokio::time::Instant::now();
        self.reading_at(&point)
    }
}

/// `std::time::SystemTime`, a point on the wall clock.
#[verifier::external_type_specification]
#[verifier::external_body]
pub struct ExSystemTime(std::time::SystemTime);

/// `std::time::SystemTimeError`, that one point on the wall clock lies before another.
#[verifier::external_type_specification]
#[verifier::external_body]
pub struct ExSystemTimeError(std::time::SystemTimeError);

/// `std::time::SystemTime::now` reads the wall clock; what it returns depends on when it is
/// called.
pub assume_specification[ std::time::SystemTime::now ]() -> std::time::SystemTime;

/// The nanoseconds from the Unix epoch to `time`, as `std::time::SystemTime::duration_since` gives
/// them; nothing where `time` lies before the epoch.
pub uninterp spec fn epoch_nanos(time: std::time::SystemTime) -> Option<u128>;

/// `std::time::SystemTime::duration_since`, from the Unix epoch to `time`, in nanoseconds; an
/// error where `time` lies before it. Both are functions of `time` alone.
#[verifier::external_body]
fn nanos_since_epoch(time: &std::time::SystemTime) -> (r: Result<
    u128,
    std::time::SystemTimeError,
>)
    ensures
        r is Ok <==> epoch_nanos(*time) is Some,
        r matches Ok(nanos) ==> epoch_nanos(*time) == Some(nanos),
{
    time.duration_since(std::time::UNIX_EPOCH).map(|span| span.as_nanos())
}

/// The whole milliseconds of a wall clock reading in nanoseconds since the Unix epoch, zero where
/// the clock stands before it.
pub open spec fn whole_ms(nanos: Option<u128>) -> u128 {
    match nanos {
        Some(n) => n / 1_000_000,
        None => 0,
    }
}

/// Whether `unix_ms` is what the wall clock shows at some time, in milliseconds since the Unix
/// epoch.
pub open spec fn wall_clock_shows(unix_ms: u128) -> bool {
    exists|time: std::time::SystemTime| unix_ms == whole_ms(#[trigger] epoch_nanos(time))
}

/// The whole milliseconds of a wall clock reading in nanoseconds since the Unix epoch, zero where
/// the clock stands before it.
pub fn unix_ms(nanos: Option<u128>) -> (r: u128)
    ensures
        r == whole_ms(nanos),
{
    match nanos {
        Some(n) => n / 1_000_000,
        None => 0,
    }
}

/// The milliseconds from the Unix epoch to `time`, zero where `time` lies before it.
pub fn unix_ms_at(time: &std::time::SystemTime) -> (r: u128)
    ensures
        r == whole_ms(epoch_nanos(*time)),
{
    unix_ms(nanos_since_epoch(time).ok())
}

/// The milliseconds since the Unix epoch, as the wall clock shows them now: those of the time at
/// which it is called.
pub(crate) fn unix_ms_now() -> (r: u128)
    ensures
        wall_clock_shows(r),
{
    let time = std::time::SystemTime::now();
    unix_ms_at(&time)
}

/// A span leads from the earlier moment to the later one; backwards there is none.
pub proof fn law_a_span_leads_to_the_later_moment(earlier: Moment, later: Moment)
    ensures
        earlier.nanos <= later.nanos ==> earlier.nanos + later.since(earlier).nanos == later.nanos,
        earlier.nanos >= later.nanos ==> later.since(earlier).nanos == 0,
{
}

/// Milliseconds are counted as soon as they are full, from the epoch on.
pub proof fn law_milliseconds_are_full(nanos: u128)
    ensures
        whole_ms(Some(nanos)) * 1_000_000 <= nanos < (whole_ms(Some(nanos)) + 1) * 1_000_000,
        whole_ms(None) == 0,
{
}

/// A clock shows the span from its origin on, and nothing else.
pub proof fn law_a_clock_counts_from_its_origin(clock: Clock, point: tokio::time::Instant)
    ensures
        clock.reading(point).nanos == nanos_from(clock.origin(), point),
        clock.shows(clock.reading(point)),
        forall|moment: Moment| #[trigger]
            clock.shows(moment) ==> exists|p: tokio::time::Instant| #[trigger]
                nanos_from(clock.origin(), p) == moment.nanos,
{
    assert forall|moment: Moment| #[trigger] clock.shows(moment) implies exists|
        p: tokio::time::Instant,
    | #[trigger] nanos_from(clock.origin(), p) == moment.nanos by {
        let p = choose|p: tokio::time::Instant| moment == #[trigger] clock.reading(p);
        assert(nanos_from(clock.origin(), p) == moment.nanos);
    }
}

/// What the wall clock shows are the full milliseconds of some time since the epoch.
pub proof fn law_the_wall_clock_shows_times(unix_ms: u128)
    requires
        wall_clock_shows(unix_ms),
    ensures
        exists|time: std::time::SystemTime|
            match #[trigger] epoch_nanos(time) {
                Some(nanos) => unix_ms == nanos / 1_000_000,
                None => unix_ms == 0,
            },
{
    let time = choose|time: std::time::SystemTime| unix_ms == whole_ms(#[trigger] epoch_nanos(time));
    assert(match epoch_nanos(time) {
        Some(nanos) => unix_ms == nanos / 1_000_000,
        None => unix_ms == 0,
    });
}

} // verus!
