//! From output bytes to the requests that they fire: scanning, debouncing, building requests.

use std::sync::Arc;

use vstd::prelude::*;
use vstd::string::*;

use crate::config::{OnExit, Pattern};
use crate::debounce::{DebounceState, Debouncer, Decision};
use crate::error::WatchError;
use crate::exit::{handle, ExitContext};
use crate::scan::{EventView, MatchEvent, Scanner, StreamId};
use crate::time::{unix_ms_now, Clock, Duration, Moment};
use crate::trigger::{build_pattern_trigger_at, RequestView, TriggerRequest};
use crate::wrap::status::ExitStatus;

verus! {

/// What the clocks show when an event is dispatched.
#[derive(Debug, Clone, Copy)]
pub struct Reading {
    /// On the clock of the pattern's debouncer, when it decides.
    pub debounce: Moment,
    /// On the clock of the run, once the event has fired.
    pub fired: Moment,
    /// On the wall clock, in milliseconds since the Unix epoch.
    pub unix_ms: u128,
}

/// What dispatching changes: the debouncers, when a pattern last fired, what was fired.
pub struct DispatchState {
    pub debouncers: Seq<DebounceState>,
    pub last_fire: Option<Moment>,
    pub fired: Seq<RequestView>,
}

/// The states of the debouncers.
pub open spec fn debounce_states(debouncers: Seq<Debouncer>) -> Seq<DebounceState> {
    debouncers.map_values(|d: Debouncer| d@)
}

/// The clocks that the debouncers go by.
pub open spec fn debounce_clocks(debouncers: Seq<Debouncer>) -> Seq<Clock> {
    debouncers.map_values(|d: Debouncer| d.clock())
}

/// Whether `reading` is of these clocks, for `event`: the first of the clock among `clocks` that
/// the event's pattern has, the second of `clock`, the third of the wall clock.
pub open spec fn reading_shown(
    reading: Reading,
    event: EventView,
    clocks: Seq<Clock>,
    clock: Clock,
) -> bool {
    &&& event.pattern_idx < clocks.len() ==> clocks[event.pattern_idx as int].shows(
        reading.debounce,
    )
    &&& clock.shows(reading.fired)
    &&& crate::time::wall_clock_shows(reading.unix_ms)
}

/// Whether `readings` are of these clocks, one for each event.
pub open spec fn readings_shown(
    readings: Seq<Reading>,
    events: Seq<EventView>,
    clocks: Seq<Clock>,
    clock: Clock,
) -> bool {
    &&& readings.len() == events.len()
    &&& forall|j: int|
        0 <= j < readings.len() ==> reading_shown(
            #[trigger] readings[j],
            events[j],
            clocks,
            clock,
        )
}

/// The requests as [`RequestView`]s.
pub open spec fn request_views(requests: Seq<TriggerRequest>) -> Seq<RequestView> {
    requests.map_values(|r: TriggerRequest| r@)
}

impl DispatchState {
    /// The state once `event` is dispatched: where its pattern's debouncer fires, the pattern's
    /// request is added and the time taken; an event of no pattern is passed over.
    pub open spec fn dispatch(
        self,
        patterns: Seq<Pattern>,
        backend_id: Seq<char>,
        event: EventView,
        reading: Reading,
    ) -> DispatchState {
        let i = event.pattern_idx as int;
        if i >= patterns.len() || i >= self.debouncers.len() {
            self
        } else if self.debouncers[i].fires(reading.debounce) {
            DispatchState {
                debouncers: self.debouncers.update(i, self.debouncers[i].after(reading.debounce)),
                last_fire: Some(reading.fired),
                fired: self.fired.push(
                    crate::trigger::pattern_request(patterns[i], backend_id, reading.unix_ms),
                ),
            }
        } else {
            self
        }
    }

    /// The state once `events` are dispatched one after the other, each at its reading.
    pub open spec fn dispatch_all(
        self,
        patterns: Seq<Pattern>,
        backend_id: Seq<char>,
        events: Seq<EventView>,
        readings: Seq<Reading>,
    ) -> DispatchState
        decreases events.len(),
    {
        if events.len() == 0 {
            self
        } else {
            self.dispatch_all(patterns, backend_id, events.drop_last(), readings.drop_last()).dispatch(
                patterns,
                backend_id,
                events.last(),
                readings.last(),
            )
        }
    }
}

/// Ask the debouncer of the event's pattern at `now`: whether the event fires. An event of no
/// pattern does not.
fn ask_debouncer(
    event: &MatchEvent,
    patterns: &Vec<Pattern>,
    debouncers: &mut Vec<Debouncer>,
    now: Moment,
) -> (r: bool)
    ensures
        ({
            let i = event.pattern_idx as int;
            let states = debounce_states(old(debouncers)@);
            &&& r == (i < patterns@.len() && i < states.len() && states[i].fires(now))
            &&& debounce_states(final(debouncers)@) == (if r {
                states.update(i, states[i].after(now))
            } else {
                states
            })
        }),
        debounce_clocks(final(debouncers)@) == debounce_clocks(old(debouncers)@),
{
    let i: usize = event.pattern_idx;
    if i >= patterns.len() || i >= debouncers.len() {
        return false;
    }
    let ghost states = debounce_states(debouncers@);
    let decision = debouncers[i].check_and_update_at(now);
    assert(debounce_clocks(debouncers@) =~= debounce_clocks(old(debouncers)@));
    match decision {
        Decision::Drop => {
            assert(debounce_states(debouncers@) =~= states);
            false
        },
        Decision::Fire => {
            assert(debounce_states(debouncers@) =~= states.update(
                i as int,
                states[i as int].after(now),
            ));
            true
        },
    }
}

/// Dispatch one event at `reading`, and append the request that it fires, if any.
pub fn dispatch_event(
    event: &MatchEvent,
    patterns: &Vec<Pattern>,
    debouncers: &mut Vec<Debouncer>,
    default_backend_id: &str,
    last_pattern_fire: &mut Option<Moment>,
    reading: Reading,
    fired: &mut Vec<TriggerRequest>,
)
    ensures
        (DispatchState {
            debouncers: debounce_states(final(debouncers)@),
            last_fire: *final(last_pattern_fire),
            fired: request_views(final(fired)@),
        }) == (DispatchState {
            debouncers: debounce_states(old(debouncers)@),
            last_fire: *old(last_pattern_fire),
            fired: request_views(old(fired)@),
        }).dispatch(patterns@, default_backend_id@, event@, reading),
        debounce_clocks(final(debouncers)@) == debounce_clocks(old(debouncers)@),
{
    if ask_debouncer(event, patterns, debouncers, reading.debounce) {
        let request = build_pattern_trigger_at(
            &patterns[event.pattern_idx],
            default_backend_id,
            reading.unix_ms,
        );
        let ghost seen = request_views(fired@);
        fired.push(request);
        assert(request_views(fired@) =~= seen.push(request@));
        *last_pattern_fire = Some(reading.fired);
    }
}

/// Dispatch events, each at its reading, and return the requests that they fire.
pub fn dispatch_events_at(
    events: &Vec<MatchEvent>,
    patterns: &Vec<Pattern>,
    debouncers: &mut Vec<Debouncer>,
    default_backend_id: &str,
    last_pattern_fire: &mut Option<Moment>,
    readings: &Vec<Reading>,
) -> (r: Vec<TriggerRequest>)
    requires
        readings@.len() == events@.len(),
    ensures
        (DispatchState {
            debouncers: debounce_states(final(debouncers)@),
            last_fire: *final(last_pattern_fire),
            fired: request_views(r@),
        }) == (DispatchState {
            debouncers: debounce_states(old(debouncers)@),
            last_fire: *old(last_pattern_fire),
            fired: Seq::empty(),
        }).dispatch_all(
            patterns@,
            default_backend_id@,
            crate::scan::event_views(events@),
            readings@,
        ),
        debounce_clocks(final(debouncers)@) == debounce_clocks(old(debouncers)@),
{
    let mut fired: Vec<TriggerRequest> = Vec::new();
    let ghost start = DispatchState {
        debouncers: debounce_states(debouncers@),
        last_fire: *last_pattern_fire,
        fired: Seq::empty(),
    };
    let ghost views = crate::scan::event_views(events@);
    assert(request_views(fired@) =~= Seq::empty());
    let mut i: usize = 0;
    while i < events.len()
        invariant
            i <= events@.len() == readings@.len(),
            views == crate::scan::event_views(events@),
            debounce_clocks(debouncers@) == debounce_clocks(old(debouncers)@),
            (DispatchState {
                debouncers: debounce_states(debouncers@),
                last_fire: *last_pattern_fire,
                fired: request_views(fired@),
            }) == start.dispatch_all(
                patterns@,
                default_backend_id@,
                views.take(i as int),
                readings@.take(i as int),
            ),
        decreases events@.len() - i,
    {
        dispatch_event(
            &events[i],
            patterns,
            debouncers,
            default_backend_id,
            last_pattern_fire,
            readings[i],
            &mut fired,
        );
        proof {
            let next = i as int + 1;
            assert(views.take(next).drop_last() =~= views.take(i as int));
            assert(readings@.take(next).drop_last() =~= readings@.take(i as int));
            assert(views.take(next).last() == events@[i as int]@);
        }
        i += 1;
    }
    assert(views.take(views.len() as int) =~= views);
    assert(readings@.take(readings@.len() as int) =~= readings@);
    fired
}

/// Dispatch events now, one after the other, and return the requests that they fire. The clocks
/// say when each is dispatched: `clock` is that of the run, and is read for an event once it has
/// fired.
pub fn dispatch_events(
    events: &Vec<MatchEvent>,
    patterns: &Vec<Pattern>,
    debouncers: &mut Vec<Debouncer>,
    clock: &Clock,
    default_backend_id: &str,
    last_pattern_fire: &mut Option<Moment>,
) -> (r: Vec<TriggerRequest>)
    ensures
        exists|readings: Seq<Reading>|
            readings_shown(
                readings,
                crate::scan::event_views(events@),
                debounce_clocks(old(debouncers)@),
                *clock,
            ) && (DispatchState {
                debouncers: debounce_states(final(debouncers)@),
                last_fire: *final(last_pattern_fire),
                fired: request_views(r@),
            }) == #[trigger] (DispatchState {
                debouncers: debounce_states(old(debouncers)@),
                last_fire: *old(last_pattern_fire),
                fired: Seq::empty(),
            }).dispatch_all(
                patterns@,
                default_backend_id@,
                crate::scan::event_views(events@),
                readings,
            ),
        debounce_clocks(final(debouncers)@) == debounce_clocks(old(debouncers)@),
        r@.len() == 0 ==> *final(last_pattern_fire) == *old(last_pattern_fire),
        r@.len() > 0 ==> (*final(last_pattern_fire) matches Some(t) && clock.shows(t)),
{
    let mut fired: Vec<TriggerRequest> = Vec::new();
    let ghost start = DispatchState {
        debouncers: debounce_states(debouncers@),
        last_fire: *last_pattern_fire,
        fired: Seq::empty(),
    };
    let ghost views = crate::scan::event_views(events@);
    let ghost clocks = debounce_clocks(debouncers@);
    let ghost mut readings: Seq<Reading> = Seq::empty();
    assert(request_views(fired@) =~= Seq::empty());
    let mut i: usize = 0;
    while i < events.len()
        invariant
            i <= events@.len(),
            views == crate::scan::event_views(events@),
            clocks == debounce_clocks(old(debouncers)@),
            debounce_clocks(debouncers@) == clocks,
            readings_shown(readings, views.take(i as int), clocks, *clock),
            (DispatchState {
                debouncers: debounce_states(debouncers@),
                last_fire: *last_pattern_fire,
                fired: request_views(fired@),
            }) == start.dispatch_all(
                patterns@,
                default_backend_id@,
                views.take(i as int),
                readings,
            ),
            fired@.len() == 0 ==> *last_pattern_fire == *old(last_pattern_fire),
            fired@.len() > 0 ==> (*last_pattern_fire matches Some(t) && clock.shows(t)),
        decreases events@.len() - i,
    {
        let event = &events[i];
        let ghost before = readings;
        assert(views.take(i as int + 1).drop_last() =~= views.take(i as int));
        assert(views.take(i as int + 1).last() == event@);
        if event.pattern_idx < debouncers.len() {
            let now = debouncers[event.pattern_idx].now();
            assert(clocks[event.pattern_idx as int] == debouncers@[event.pattern_idx as int].clock());
            if ask_debouncer(event, patterns, debouncers, now) {
                let unix_ms: u128 = unix_ms_now();
                let request = build_pattern_trigger_at(
                    &patterns[event.pattern_idx],
                    default_backend_id,
                    unix_ms,
                );
                let ghost seen = request_views(fired@);
                fired.push(request);
                assert(request_views(fired@) =~= seen.push(request@));
                let at = clock.now();
                *last_pattern_fire = Some(at);
                proof {
                    readings = readings.push(Reading { debounce: now, fired: at, unix_ms });
                }
            } else {
                proof {
                    readings = readings.push(some_reading(now, *clock));
                    lemma_some_reading(now, *clock);
                }
            }
        } else {
            proof {
                readings = readings.push(some_reading(Moment { nanos: 0 }, *clock));
                lemma_some_reading(Moment { nanos: 0 }, *clock);
            }
        }
        proof {
            assert(readings.drop_last() =~= before);
            lemma_readings_shown_push(before, views, i as int, readings.last(), clocks, *clock);
            assert(before.push(readings.last()) =~= readings);
        }
        i += 1;
    }
    assert(views.take(views.len() as int) =~= views);
    fired
}

/// A reading for an event that does not fire, decided at `debounce`: nobody looks at the others.
spec fn some_reading(debounce: Moment, clock: Clock) -> Reading {
    Reading {
        debounce,
        fired: clock.reading(clock.origin()),
        unix_ms: crate::time::whole_ms(
            crate::time::epoch_nanos(vstd::pervasive::arbitrary::<std::time::SystemTime>()),
        ),
    }
}

/// What nobody looks at is a reading all the same.
proof fn lemma_some_reading(debounce: Moment, clock: Clock)
    ensures
        clock.shows(some_reading(debounce, clock).fired),
        crate::time::wall_clock_shows(some_reading(debounce, clock).unix_ms),
{
    assert(some_reading(debounce, clock).fired == clock.reading(clock.origin()));
}

/// Readings that are shown stay so with one more.
proof fn lemma_readings_shown_push(
    readings: Seq<Reading>,
    events: Seq<EventView>,
    n: int,
    next: Reading,
    clocks: Seq<Clock>,
    clock: Clock,
)
    requires
        0 <= n < events.len(),
        readings_shown(readings, events.take(n), clocks, clock),
        reading_shown(next, events[n], clocks, clock),
    ensures
        readings_shown(readings.push(next), events.take(n + 1), clocks, clock),
{
    let all = readings.push(next);
    assert forall|j: int| 0 <= j < all.len() implies reading_shown(
        #[trigger] all[j],
        events.take(n + 1)[j],
        clocks,
        clock,
    ) by {
        if j < n {
            assert(reading_shown(readings[j], events.take(n)[j], clocks, clock));
        }
    }
}

/// Everything between the wrapped command's output and the requests that it fires.
pub struct Pipeline {
    scanner: Scanner,
    patterns: Arc<Vec<Pattern>>,
    debouncers: Vec<Debouncer>,
    clock: Clock,
    default_backend_id: String,
    last_pattern_fire: Option<Moment>,
}

/// One debouncer for each pattern, with the pattern's window, that has not fired yet.
pub fn debouncers_for(patterns: &Vec<Pattern>) -> (r: Vec<Debouncer>)
    ensures
        debounce_states(r@) == fresh_debouncers(patterns@),
        r@.len() == patterns@.len(),
        forall|i: int|
            0 <= i < r@.len() ==> (#[trigger] r@[i])@.window.nanos == patterns@[i].debounce_ms
                * 1_000_000 && r@[i]@.last_fire is None,
{
    let mut r: Vec<Debouncer> = Vec::new();
    let mut i: usize = 0;
    while i < patterns.len()
        invariant
            i <= patterns@.len(),
            r@.len() == i,
            forall|j: int|
                0 <= j < i ==> (#[trigger] r@[j])@.window.nanos == patterns@[j].debounce_ms
                    * 1_000_000 && r@[j]@.last_fire is None,
        decreases patterns@.len() - i,
    {
        r.push(Debouncer::new(Duration::from_millis(patterns[i].debounce_ms)));
        i += 1;
    }
    assert(debounce_states(r@) =~= fresh_debouncers(patterns@));
    r
}

/// The states of debouncers for `patterns` that have not fired yet.
pub open spec fn fresh_debouncers(patterns: Seq<Pattern>) -> Seq<DebounceState> {
    patterns.map_values(
        |p: Pattern|
            DebounceState {
                window: Duration { nanos: (p.debounce_ms * 1_000_000) as u128 },
                last_fire: None,
            },
    )
}

impl Pipeline {
    /// What is looked for.
    pub closed spec fn patterns(&self) -> Seq<Pattern> {
        self.patterns@
    }

    /// The backend of requests whose pattern names none.
    pub closed spec fn backend_id(&self) -> Seq<char> {
        self.default_backend_id@
    }

    /// The bytes of `stream` that belong to a line without an end.
    pub closed spec fn pending(&self, stream: StreamId) -> Seq<u8> {
        self.scanner.pending(stream)
    }

    /// The debouncers and when a pattern last fired, with nothing fired since.
    pub closed spec fn state(&self) -> DispatchState {
        DispatchState {
            debouncers: debounce_states(self.debouncers@),
            last_fire: self.last_pattern_fire,
            fired: Seq::empty(),
        }
    }

    /// The clock of the run.
    pub closed spec fn clock(&self) -> Clock {
        self.clock
    }

    /// The clocks that the debouncers go by.
    pub closed spec fn debounce_clocks(&self) -> Seq<Clock> {
        debounce_clocks(self.debouncers@)
    }

    /// Whether the parts of the pipeline are for the same patterns.
    pub closed spec fn parts_agree(&self) -> bool {
        &&& self.scanner.wf()
        &&& self.scanner.regexes() == crate::scan::pattern_regexes(self.patterns@)
    }

    /// What holds between calls: the parts are for the same patterns, what is pending of either
    /// stream is shorter than a line may get, and the last fire was at a time of the run's clock.
    pub open spec fn wf(&self) -> bool {
        &&& self.parts_agree()
        &&& self.state().last_fire matches Some(t) ==> self.clock().shows(t)
        &&& forall|stream: StreamId| (#[trigger] self.pending(stream)).len() < crate::scan::MAX_LINE
    }

    /// A pipeline for `patterns`, each with its debouncer; `clock` is that of the run.
    pub fn new(
        patterns: Arc<Vec<Pattern>>,
        debouncers: Vec<Debouncer>,
        default_backend_id: String,
        clock: Clock,
    ) -> (r: Result<Pipeline, WatchError>)
        ensures
            match r {
                Ok(p) => {
                    &&& crate::scan::scanner_fault(patterns@) is None
                    &&& p.wf()
                    &&& p.patterns() == patterns@
                    &&& p.backend_id() == default_backend_id@
                    &&& p.clock() == clock
                    &&& p.debounce_clocks() == debounce_clocks(debouncers@)
                    &&& p.pending(StreamId::Stdout) == Seq::<u8>::empty()
                    &&& p.pending(StreamId::Stderr) == Seq::<u8>::empty()
                    &&& p.state() == (DispatchState {
                        debouncers: debounce_states(debouncers@),
                        last_fire: None,
                        fired: Seq::empty(),
                    })
                },
                Err(e) => crate::scan::scanner_fault(patterns@) == Some(e@),
            },
    {
        match Scanner::new(patterns.clone()) {
            Ok(scanner) => Ok(
                Pipeline {
                    scanner,
                    patterns,
                    debouncers,
                    clock,
                    default_backend_id,
                    last_pattern_fire: None,
                },
            ),
            Err(e) => Err(e),
        }
    }

    /// Take in output bytes and return the requests that they fire.
    pub fn on_output(&mut self, stream: StreamId, bytes: &[u8]) -> (r: Vec<TriggerRequest>)
        requires
            old(self).wf(),
            old(self).pending(stream).len() + bytes@.len() <= isize::MAX,
        ensures
            final(self).wf(),
            final(self).patterns() == old(self).patterns(),
            final(self).backend_id() == old(self).backend_id(),
            final(self).clock() == old(self).clock(),
            final(self).debounce_clocks() == old(self).debounce_clocks(),
            final(self).pending(stream) == crate::scan::kept(old(self).pending(stream) + bytes@),
            forall|other: StreamId|
                other != stream ==> #[trigger] final(self).pending(other) == old(self).pending(
                    other,
                ),
            fired_by(
                *old(self),
                *final(self),
                crate::scan::lines_events(
                    crate::scan::pattern_regexes(old(self).patterns()),
                    stream,
                    crate::scan::scanned_lines(old(self).pending(stream) + bytes@),
                ),
                r@,
            ),
    {
        let events = self.scanner.feed(stream, bytes);
        let r = dispatch_events(
            &events,
            &self.patterns,
            &mut self.debouncers,
            &self.clock,
            self.default_backend_id.as_str(),
            &mut self.last_pattern_fire,
        );
        proof {
            lemma_fired_by(*old(self), *self, crate::scan::event_views(events@), r@);
        }
        r
    }

    /// Take what is pending of both streams as lines and return the requests that they fire. For
    /// the end of the output: all of it has been taken in.
    pub fn on_end(&mut self) -> (r: Vec<TriggerRequest>)
        requires
            old(self).wf(),
        ensures
            final(self).wf(),
            final(self).patterns() == old(self).patterns(),
            final(self).backend_id() == old(self).backend_id(),
            final(self).clock() == old(self).clock(),
            final(self).debounce_clocks() == old(self).debounce_clocks(),
            final(self).pending(StreamId::Stdout) == Seq::<u8>::empty(),
            final(self).pending(StreamId::Stderr) == Seq::<u8>::empty(),
            fired_by(
                *old(self),
                *final(self),
                crate::scan::flush_events(
                    crate::scan::pattern_regexes(old(self).patterns()),
                    StreamId::Stdout,
                    old(self).pending(StreamId::Stdout),
                ) + crate::scan::flush_events(
                    crate::scan::pattern_regexes(old(self).patterns()),
                    StreamId::Stderr,
                    old(self).pending(StreamId::Stderr),
                ),
                r@,
            ),
    {
        let events = self.scanner.flush_all();
        let r = dispatch_events(
            &events,
            &self.patterns,
            &mut self.debouncers,
            &self.clock,
            self.default_backend_id.as_str(),
            &mut self.last_pattern_fire,
        );
        proof {
            lemma_fired_by(*old(self), *self, crate::scan::event_views(events@), r@);
        }
        r
    }

    /// The request to fire now that the command has ended, if any. The run's clock says how long
    /// it lasted.
    pub fn on_exit(&self, status: ExitStatus, on_exit: &OnExit, shutdown_due_to_signal: bool) -> (r:
        Option<TriggerRequest>)
        ensures
            exists|now: Moment|
                self.clock().shows(now) && crate::exit::answers(
                    r,
                    #[trigger] exit_wanted(
                        self.state().last_fire,
                        status,
                        *on_exit,
                        shutdown_due_to_signal,
                        now,
                    ),
                    self.backend_id(),
                ),
    {
        let now = self.clock.now();
        let ctx = ExitContext {
            status,
            duration: Duration { nanos: now.nanos },
            on_exit,
            default_backend_id: self.default_backend_id.as_str(),
            last_pattern_fire: self.last_pattern_fire,
            shutdown_due_to_signal,
            now,
        };
        let ghost wanted = ctx.wanted();
        let r = handle(ctx);
        assert(wanted == exit_wanted(
            self.state().last_fire,
            status,
            *on_exit,
            shutdown_due_to_signal,
            now,
        ));
        r
    }

    /// What is still to fire once the command has ended and all of its output has been taken in:
    /// the requests of the lines without an end, then that of the exit. A failure is told by its
    /// own sensation only where none of these lines has told it just before.
    pub fn finish(&mut self, status: ExitStatus, on_exit: &OnExit, shutdown_due_to_signal: bool) -> (r:
        Vec<TriggerRequest>)
        requires
            old(self).wf(),
        ensures
            final(self).wf(),
            final(self).patterns() == old(self).patterns(),
            final(self).backend_id() == old(self).backend_id(),
            final(self).clock() == old(self).clock(),
            final(self).debounce_clocks() == old(self).debounce_clocks(),
            final(self).pending(StreamId::Stdout) == Seq::<u8>::empty(),
            final(self).pending(StreamId::Stderr) == Seq::<u8>::empty(),
            exists|flushed: Seq<TriggerRequest>, exit: Option<TriggerRequest>|
                finished_with(
                    *old(self),
                    *final(self),
                    status,
                    *on_exit,
                    shutdown_due_to_signal,
                    flushed,
                    exit,
                ) && #[trigger] with_exit(flushed, exit) == r@,
    {
        let mut r = self.on_end();
        let ghost flushed = r@;
        let exit = self.on_exit(status, on_exit, shutdown_due_to_signal);
        let ghost told = exit;
        if let Some(request) = exit {
            r.push(request);
        }
        assert(with_exit(flushed, told) == r@);
        assert(finished_with(
            *old(self),
            *self,
            status,
            *on_exit,
            shutdown_due_to_signal,
            flushed,
            told,
        ));
        r
    }
}

/// `requests`, and behind them the one of the exit, if there is one.
pub open spec fn with_exit(
    requests: Seq<TriggerRequest>,
    exit: Option<TriggerRequest>,
) -> Seq<TriggerRequest> {
    match exit {
        Some(request) => requests.push(request),
        None => requests,
    }
}

/// Whether `flushed` is what the lines without an end fire on the way from `before` to `after`,
/// and `exit` is what the exit fires after that.
pub open spec fn finished_with(
    before: Pipeline,
    after: Pipeline,
    status: ExitStatus,
    on_exit: OnExit,
    shutdown_due_to_signal: bool,
    flushed: Seq<TriggerRequest>,
    exit: Option<TriggerRequest>,
) -> bool {
    &&& fired_by(
        before,
        after,
        crate::scan::flush_events(
            crate::scan::pattern_regexes(before.patterns()),
            StreamId::Stdout,
            before.pending(StreamId::Stdout),
        ) + crate::scan::flush_events(
            crate::scan::pattern_regexes(before.patterns()),
            StreamId::Stderr,
            before.pending(StreamId::Stderr),
        ),
        flushed,
    )
    &&& exists|now: Moment|
        before.clock().shows(now) && crate::exit::answers(
            exit,
            #[trigger] exit_wanted(
                after.state().last_fire,
                status,
                on_exit,
                shutdown_due_to_signal,
                now,
            ),
            before.backend_id(),
        )
}

/// The sensation that is wanted of a run that ends at `now`, `now` being counted from its start.
pub open spec fn exit_wanted(
    last_fire: Option<Moment>,
    status: ExitStatus,
    on_exit: OnExit,
    shutdown_due_to_signal: bool,
    now: Moment,
) -> Option<Seq<char>> {
    (ExitContext {
        status,
        duration: Duration { nanos: now.nanos },
        on_exit: &on_exit,
        default_backend_id: "",
        last_pattern_fire: last_fire,
        shutdown_due_to_signal,
        now,
    }).wanted()
}

/// Whether `requests` are what `events` fire on the way from `before` to `after`, at readings of
/// its clocks.
pub open spec fn fired_by(
    before: Pipeline,
    after: Pipeline,
    events: Seq<EventView>,
    requests: Seq<TriggerRequest>,
) -> bool {
    exists|readings: Seq<Reading>|
        {
            let end = #[trigger] before.state().dispatch_all(
                before.patterns(),
                before.backend_id(),
                events,
                readings,
            );
            &&& readings_shown(readings, events, before.debounce_clocks(), before.clock())
            &&& after.state().debouncers == end.debouncers
            &&& after.state().last_fire == end.last_fire
            &&& request_views(requests) == end.fired
        }
}

/// What dispatching says of the parts of a pipeline, said of the whole.
proof fn lemma_fired_by(
    before: Pipeline,
    after: Pipeline,
    events: Seq<EventView>,
    requests: Seq<TriggerRequest>,
)
    requires
        exists|readings: Seq<Reading>|
            readings_shown(
                readings,
                events,
                debounce_clocks(before.debouncers@),
                before.clock,
            ) && (DispatchState {
                debouncers: debounce_states(after.debouncers@),
                last_fire: after.last_pattern_fire,
                fired: request_views(requests),
            }) == #[trigger] (DispatchState {
                debouncers: debounce_states(before.debouncers@),
                last_fire: before.last_pattern_fire,
                fired: Seq::empty(),
            }).dispatch_all(
                before.patterns@,
                before.default_backend_id@,
                events,
                readings,
            ),
    ensures
        fired_by(before, after, events, requests),
{
    let start = DispatchState {
        debouncers: debounce_states(before.debouncers@),
        last_fire: before.last_pattern_fire,
        fired: Seq::<RequestView>::empty(),
    };
    let readings = choose|readings: Seq<Reading>|
        readings_shown(readings, events, debounce_clocks(before.debouncers@), before.clock) && (
        DispatchState {
            debouncers: debounce_states(after.debouncers@),
            last_fire: after.last_pattern_fire,
            fired: request_views(requests),
        }) == #[trigger] start.dispatch_all(
            before.patterns@,
            before.default_backend_id@,
            events,
            readings,
        );
    assert(before.state() == start);
}

/// Patterns do not share debouncers: an event changes no debouncer but that of its own pattern.
pub proof fn law_debouncers_are_independent(
    s: DispatchState,
    patterns: Seq<Pattern>,
    backend_id: Seq<char>,
    event: EventView,
    reading: Reading,
    other: int,
)
    requires
        0 <= other < s.debouncers.len(),
        other != event.pattern_idx,
    ensures
        s.dispatch(patterns, backend_id, event, reading).debouncers.len() == s.debouncers.len(),
        s.dispatch(patterns, backend_id, event, reading).debouncers[other] == s.debouncers[other],
{
}

/// An event fires at most one request, and the time of the last fire is that of the last event
/// that fired: an event that is dropped changes nothing at all.
pub proof fn law_only_a_fire_is_remembered(
    s: DispatchState,
    patterns: Seq<Pattern>,
    backend_id: Seq<char>,
    event: EventView,
    reading: Reading,
)
    ensures
        ({
            let after = s.dispatch(patterns, backend_id, event, reading);
            ||| after == s
            ||| {
                &&& after.fired.len() == s.fired.len() + 1
                &&& after.fired.drop_last() == s.fired
                &&& after.last_fire == Some(reading.fired)
            }
        }),
{
    assert(s.fired.push(
        crate::trigger::pattern_request(
            patterns[event.pattern_idx as int],
            backend_id,
            reading.unix_ms,
        ),
    ).drop_last() =~= s.fired);
}

/// Every request that is fired is that of a pattern that matched: of one of the events, with that
/// pattern's sensation, at one of the readings.
pub proof fn law_fires_come_from_matches(
    s: DispatchState,
    patterns: Seq<Pattern>,
    backend_id: Seq<char>,
    events: Seq<EventView>,
    readings: Seq<Reading>,
    k: int,
)
    requires
        readings.len() == events.len(),
        s.fired.len() <= k < s.dispatch_all(patterns, backend_id, events, readings).fired.len(),
    ensures
        exists|j: int|
            0 <= j < events.len() && (#[trigger] events[j]).pattern_idx < patterns.len()
                && s.dispatch_all(patterns, backend_id, events, readings).fired[k]
                == crate::trigger::pattern_request(
                patterns[events[j].pattern_idx as int],
                backend_id,
                readings[j].unix_ms,
            ),
    decreases events.len(),
{
    if events.len() > 0 {
        let earlier = s.dispatch_all(
            patterns,
            backend_id,
            events.drop_last(),
            readings.drop_last(),
        );
        if k < earlier.fired.len() {
            law_fires_come_from_matches(
                s,
                patterns,
                backend_id,
                events.drop_last(),
                readings.drop_last(),
                k,
            );
            let j = choose|j: int|
                0 <= j < events.len() - 1 && (#[trigger] events.drop_last()[j]).pattern_idx
                    < patterns.len() && earlier.fired[k] == crate::trigger::pattern_request(
                    patterns[events.drop_last()[j].pattern_idx as int],
                    backend_id,
                    readings.drop_last()[j].unix_ms,
                );
            assert(events[j] == events.drop_last()[j]);
        } else {
            assert(events[events.len() - 1] == events.last());
        }
    }
}

/// With debouncing off for every pattern, every match fires.
pub proof fn law_without_debouncing_every_match_fires(
    s: DispatchState,
    patterns: Seq<Pattern>,
    backend_id: Seq<char>,
    events: Seq<EventView>,
    readings: Seq<Reading>,
)
    requires
        s.debouncers.len() == patterns.len(),
        forall|i: int| 0 <= i < s.debouncers.len() ==> (#[trigger] s.debouncers[i]).window.nanos == 0,
        forall|j: int| 0 <= j < events.len() ==> (#[trigger] events[j]).pattern_idx < patterns.len(),
    ensures
        s.dispatch_all(patterns, backend_id, events, readings).fired.len() == s.fired.len()
            + events.len(),
        s.dispatch_all(patterns, backend_id, events, readings).debouncers.len() == patterns.len(),
        forall|i: int|
            0 <= i < patterns.len() ==> (#[trigger] s.dispatch_all(
                patterns,
                backend_id,
                events,
                readings,
            ).debouncers[i]).window.nanos == 0,
    decreases events.len(),
{
    if events.len() > 0 {
        assert forall|j: int| 0 <= j < events.len() - 1 implies (
        #[trigger] events.drop_last()[j]).pattern_idx < patterns.len() by {
            assert(events.drop_last()[j] == events[j]);
        }
        law_without_debouncing_every_match_fires(
            s,
            patterns,
            backend_id,
            events.drop_last(),
            readings.drop_last(),
        );
        assert(events[events.len() - 1].pattern_idx < patterns.len());
    }
}

/// After a signal nothing is fired for the exit, however the command ended.
pub proof fn law_signal_silences_the_exit(
    before: Pipeline,
    after: Pipeline,
    status: ExitStatus,
    on_exit: OnExit,
    flushed: Seq<TriggerRequest>,
    exit: Option<TriggerRequest>,
)
    requires
        finished_with(before, after, status, on_exit, true, flushed, exit),
    ensures
        exit is None,
        with_exit(flushed, exit) == flushed,
{
}

/// The time of the last fire is that of the last event that fired, read once it had; where none
/// fired it is unchanged.
pub proof fn law_last_fire_is_a_reading(
    s: DispatchState,
    patterns: Seq<Pattern>,
    backend_id: Seq<char>,
    events: Seq<EventView>,
    readings: Seq<Reading>,
)
    requires
        readings.len() == events.len(),
    ensures
        ({
            let end = s.dispatch_all(patterns, backend_id, events, readings);
            &&& end.fired.len() >= s.fired.len()
            &&& end.fired.len() == s.fired.len() ==> end.last_fire == s.last_fire
            &&& end.fired.len() > s.fired.len() ==> exists|j: int|
                0 <= j < readings.len() && end.last_fire == Some((#[trigger] readings[j]).fired)
        }),
    decreases events.len(),
{
    if events.len() > 0 {
        law_last_fire_is_a_reading(
            s,
            patterns,
            backend_id,
            events.drop_last(),
            readings.drop_last(),
        );
        let earlier = s.dispatch_all(
            patterns,
            backend_id,
            events.drop_last(),
            readings.drop_last(),
        );
        let end = s.dispatch_all(patterns, backend_id, events, readings);
        if end.fired.len() > earlier.fired.len() {
            assert(end.last_fire == Some(readings[readings.len() - 1].fired));
        } else if earlier.fired.len() > s.fired.len() {
            let j = choose|j: int|
                0 <= j < readings.len() - 1 && earlier.last_fire == Some(
                    (#[trigger] readings.drop_last()[j]).fired,
                );
            assert(readings[j] == readings.drop_last()[j]);
        }
    }
}

/// A failure is not told again right after a line told it: where one of the lines without an end
/// has fired, the exit fires only if the run's clock shows the whole dedupe window between that
/// fire and the exit.
pub proof fn law_last_line_tells_the_failure(
    before: Pipeline,
    after: Pipeline,
    status: ExitStatus,
    on_exit: OnExit,
    flushed: Seq<TriggerRequest>,
    exit: Option<TriggerRequest>,
)
    requires
        finished_with(before, after, status, on_exit, false, flushed, exit),
        status.code != Some(0i32),
        flushed.len() > 0,
        exit is Some,
    ensures
        exists|fired: Moment, now: Moment|
            after.state().last_fire == Some(fired) && #[trigger] before.clock().shows(fired)
                && #[trigger] before.clock().shows(now) && now.since(fired).nanos
                >= on_exit.failure_dedupe_window_ms * 1_000_000,
{
    let regexes = crate::scan::pattern_regexes(before.patterns());
    let events = crate::scan::flush_events(
        regexes,
        StreamId::Stdout,
        before.pending(StreamId::Stdout),
    ) + crate::scan::flush_events(regexes, StreamId::Stderr, before.pending(StreamId::Stderr));
    let readings = choose|readings: Seq<Reading>|
        {
            let end = #[trigger] before.state().dispatch_all(
                before.patterns(),
                before.backend_id(),
                events,
                readings,
            );
            &&& readings_shown(readings, events, before.debounce_clocks(), before.clock())
            &&& after.state().debouncers == end.debouncers
            &&& after.state().last_fire == end.last_fire
            &&& request_views(flushed) == end.fired
        };
    law_last_fire_is_a_reading(
        before.state(),
        before.patterns(),
        before.backend_id(),
        events,
        readings,
    );
    assert(request_views(flushed).len() > 0);
    let j = choose|j: int|
        0 <= j < readings.len() && after.state().last_fire == Some((#[trigger] readings[j]).fired);
    let fired = readings[j].fired;
    assert(before.clock().shows(fired));
    let now = choose|now: Moment|
        before.clock().shows(now) && crate::exit::answers(
            exit,
            #[trigger] exit_wanted(after.state().last_fire, status, on_exit, false, now),
            before.backend_id(),
        );
    assert(before.clock().shows(now));
}

/// Every pattern has a debouncer of its own, that has not fired yet and whose window is exactly as
/// many milliseconds as the pattern says.
pub proof fn law_windows_are_as_configured(patterns: Seq<Pattern>, i: int)
    requires
        0 <= i < patterns.len(),
    ensures
        fresh_debouncers(patterns).len() == patterns.len(),
        fresh_debouncers(patterns)[i].window.nanos == patterns[i].debounce_ms * 1_000_000,
        fresh_debouncers(patterns)[i].last_fire is None,
{
}

/// Two matches of a pattern fire once where they are less than its `debounce_ms` apart, and twice
/// where they are not, whatever the other patterns are.
pub proof fn law_matches_in_the_window_fire_once(
    s: DispatchState,
    patterns: Seq<Pattern>,
    backend_id: Seq<char>,
    first: EventView,
    second: EventView,
    a: Reading,
    b: Reading,
)
    requires
        s.debouncers == fresh_debouncers(patterns),
        first.pattern_idx < patterns.len(),
        second.pattern_idx == first.pattern_idx,
        a.debounce.nanos <= b.debounce.nanos,
    ensures
        ({
            let end = s.dispatch(patterns, backend_id, first, a).dispatch(
                patterns,
                backend_id,
                second,
                b,
            );
            let window = patterns[first.pattern_idx as int].debounce_ms * 1_000_000;
            &&& b.debounce.nanos - a.debounce.nanos < window ==> end.fired.len() == s.fired.len() + 1
            &&& b.debounce.nanos - a.debounce.nanos >= window ==> end.fired.len() == s.fired.len()
                + 2
        }),
{
}

/// A match fires exactly where its pattern has not fired yet, or its window has passed since it
/// did, whichever pattern it is of and whatever its line says. It then adds the pattern's request,
/// behind those that were there, its time is that of the last fire, and the window counts from it;
/// else nothing changes at all. What is of no pattern never fires.
pub proof fn law_a_match_fires_or_changes_nothing(
    s: DispatchState,
    patterns: Seq<Pattern>,
    backend_id: Seq<char>,
    event: EventView,
    reading: Reading,
)
    ensures
        ({
            let i = event.pattern_idx as int;
            let after = s.dispatch(patterns, backend_id, event, reading);
            let fires = i < patterns.len() && i < s.debouncers.len() && (
            s.debouncers[i].last_fire matches Some(prev) ==> (reading.debounce.nanos >= prev.nanos
                && reading.debounce.nanos - prev.nanos >= s.debouncers[i].window.nanos)
                || s.debouncers[i].window.nanos == 0);
            &&& !fires ==> after == s
            &&& fires ==> {
                &&& after.fired.len() == s.fired.len() + 1
                &&& after.fired.take(s.fired.len() as int) == s.fired
                &&& after.fired.last().sensation == Some(patterns[i].sensation@)
                &&& after.fired.last().backend_id == (match patterns[i].backend_id {
                    Some(id) => id@,
                    None => backend_id,
                })
                &&& after.fired.last().intensity_scale == patterns[i].intensity_scale
                &&& after.fired.last().priority == (match patterns[i].priority {
                    Some(priority) => priority,
                    None => 0,
                })
                &&& after.fired.last().client_trace_id == crate::trigger::pattern_trace_id(
                    patterns[i].name@,
                    reading.unix_ms,
                )
                &&& after.last_fire == Some(reading.fired)
                &&& after.debouncers.len() == s.debouncers.len()
                &&& after.debouncers[i].last_fire == Some(reading.debounce)
                &&& after.debouncers[i].window == s.debouncers[i].window
            }
        }),
{
    let after = s.dispatch(patterns, backend_id, event, reading);
    if after.fired.len() == s.fired.len() + 1 {
        assert(after.fired.take(s.fired.len() as int) =~= s.fired);
    }
}

/// Events are dispatched one by one, in their order, each at its own reading.
pub proof fn law_events_are_dispatched_one_by_one(
    s: DispatchState,
    patterns: Seq<Pattern>,
    backend_id: Seq<char>,
    events: Seq<EventView>,
    readings: Seq<Reading>,
    event: EventView,
    reading: Reading,
)
    requires
        readings.len() == events.len(),
    ensures
        s.dispatch_all(patterns, backend_id, events.push(event), readings.push(reading))
            == s.dispatch_all(patterns, backend_id, events, readings).dispatch(
            patterns,
            backend_id,
            event,
            reading,
        ),
        s.dispatch_all(patterns, backend_id, Seq::empty(), Seq::empty()) == s,
{
    assert(events.push(event).drop_last() =~= events);
    assert(readings.push(reading).drop_last() =~= readings);
}

/// Each reading is one of its own clock: that of the debouncer of the event's pattern, that of the
/// run, and the wall clock.
pub proof fn law_readings_are_of_their_clocks(
    readings: Seq<Reading>,
    events: Seq<EventView>,
    clocks: Seq<Clock>,
    clock: Clock,
    j: int,
)
    requires
        readings_shown(readings, events, clocks, clock),
        0 <= j < events.len(),
    ensures
        readings.len() == events.len(),
        events[j].pattern_idx < clocks.len() ==> clocks[events[j].pattern_idx as int].shows(
            readings[j].debounce,
        ),
        clock.shows(readings[j].fired),
        crate::time::wall_clock_shows(readings[j].unix_ms),
{
    assert(reading_shown(readings[j], events[j], clocks, clock));
}

/// Views of lists are those of their items, one by one.
pub proof fn law_pipeline_views_are_itemwise(
    debouncers: Seq<Debouncer>,
    requests: Seq<TriggerRequest>,
)
    ensures
        debounce_states(debouncers).len() == debouncers.len(),
        forall|i: int|
            0 <= i < debouncers.len() ==> #[trigger] debounce_states(debouncers)[i]
                == debouncers[i]@,
        debounce_clocks(debouncers).len() == debouncers.len(),
        forall|i: int|
            0 <= i < debouncers.len() ==> #[trigger] debounce_clocks(debouncers)[i]
                == debouncers[i].clock(),
        request_views(requests).len() == requests.len(),
        forall|i: int|
            0 <= i < requests.len() ==> #[trigger] request_views(requests)[i] == requests[i]@,
{
}

/// Output fires what dispatching its events fires, from the state that there was to the one that
/// there is then, at readings of the pipeline's own clocks.
pub proof fn law_output_fires_its_events(
    before: Pipeline,
    after: Pipeline,
    events: Seq<EventView>,
    requests: Seq<TriggerRequest>,
)
    requires
        fired_by(before, after, events, requests),
    ensures
        exists|readings: Seq<Reading>|
            {
                let end = #[trigger] before.state().dispatch_all(
                    before.patterns(),
                    before.backend_id(),
                    events,
                    readings,
                );
                &&& readings_shown(readings, events, before.debounce_clocks(), before.clock())
                &&& after.state().debouncers == end.debouncers
                &&& after.state().last_fire == end.last_fire
                &&& requests.len() == end.fired.len()
                &&& forall|k: int|
                    0 <= k < requests.len() ==> (#[trigger] requests[k])@ == end.fired[k]
            },
{
    let readings = choose|readings: Seq<Reading>|
        {
            let end = #[trigger] before.state().dispatch_all(
                before.patterns(),
                before.backend_id(),
                events,
                readings,
            );
            &&& readings_shown(readings, events, before.debounce_clocks(), before.clock())
            &&& after.state().debouncers == end.debouncers
            &&& after.state().last_fire == end.last_fire
            &&& request_views(requests) == end.fired
        };
    let end = before.state().dispatch_all(
        before.patterns(),
        before.backend_id(),
        events,
        readings,
    );
    assert forall|k: int| 0 <= k < requests.len() implies (#[trigger] requests[k])@
        == end.fired[k] by {
        assert(request_views(requests)[k] == requests[k]@);
    }
    assert(requests.len() == request_views(requests).len());
}

/// What an exit wants goes by the time since the start of the run as its duration, and by nothing
/// else than what decides on it.
pub proof fn law_a_run_lasts_until_its_end(
    last_fire: Option<Moment>,
    status: ExitStatus,
    on_exit: OnExit,
    now: Moment,
)
    ensures
        exit_wanted(last_fire, status, on_exit, true, now) is None,
        status.code == Some(0i32) ==> exit_wanted(last_fire, status, on_exit, false, now) == (
        if on_exit.success_sensation@.len() > 0 && now.nanos >= on_exit.success_min_duration_ms
            * 1_000_000 {
            Some(on_exit.success_sensation@)
        } else {
            None
        }),
        status.code != Some(0i32) ==> exit_wanted(last_fire, status, on_exit, false, now) == (
        if on_exit.failure_sensation@.len() > 0 && (last_fire matches Some(t) ==> now.since(t).nanos
            >= on_exit.failure_dedupe_window_ms * 1_000_000) {
            Some(on_exit.failure_sensation@)
        } else {
            None
        }),
{
}

/// The request of the exit comes last, behind all others, and only where there is one.
pub proof fn law_the_exit_comes_last(
    requests: Seq<TriggerRequest>,
    exit: Option<TriggerRequest>,
)
    ensures
        exit is None ==> with_exit(requests, exit) == requests,
        exit matches Some(request) ==> with_exit(requests, exit).len() == requests.len() + 1
            && with_exit(requests, exit).last() == request && with_exit(requests, exit).take(
            requests.len() as int,
        ) == requests,
{
    if let Some(request) = exit {
        assert(requests.push(request).take(requests.len() as int) =~= requests);
    }
}

/// At the end every line without an end is scanned, those of stdout first, and the exit is decided
/// after them: by the last fire that there was then, at a time of the run's clock.
pub proof fn law_the_end_is_decided_last(
    before: Pipeline,
    after: Pipeline,
    status: ExitStatus,
    on_exit: OnExit,
    shutdown_due_to_signal: bool,
    flushed: Seq<TriggerRequest>,
    exit: Option<TriggerRequest>,
)
    requires
        finished_with(before, after, status, on_exit, shutdown_due_to_signal, flushed, exit),
    ensures
        ({
            let regexes = crate::scan::pattern_regexes(before.patterns());
            &&& fired_by(
                before,
                after,
                crate::scan::flush_events(
                    regexes,
                    StreamId::Stdout,
                    before.pending(StreamId::Stdout),
                ) + crate::scan::flush_events(
                    regexes,
                    StreamId::Stderr,
                    before.pending(StreamId::Stderr),
                ),
                flushed,
            )
            &&& exists|now: Moment| #[trigger]
                before.clock().shows(now) && (exit is Some <==> exit_wanted(
                    after.state().last_fire,
                    status,
                    on_exit,
                    shutdown_due_to_signal,
                    now,
                ) is Some)
        }),
{
    let now = choose|now: Moment|
        before.clock().shows(now) && crate::exit::answers(
            exit,
            #[trigger] exit_wanted(
                after.state().last_fire,
                status,
                on_exit,
                shutdown_due_to_signal,
                now,
            ),
            before.backend_id(),
        );
    assert(before.clock().shows(now));
}

} // verus!
