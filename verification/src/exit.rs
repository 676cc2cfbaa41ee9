//! Which sensation, if any, is fired when the wrapped command has finished.
//!
//! On success the success sensation, where the run was long enough to be worth it. On failure the
//! failure sensation, unless a pattern fired a moment ago. After a signal nothing: the user asked
//! the run to stop. An empty sensation is one that is not wanted.

use vstd::prelude::*;
use vstd::string::*;

use crate::config::OnExit;
use crate::time::{Duration, Moment};
use crate::trigger::{build_exit_trigger, TriggerRequest};
use crate::wrap::status::ExitStatus;

verus! {

/// What the decision on the exit sensation rests on.
pub struct ExitContext<'a> {
    pub status: ExitStatus,
    /// How long the command ran.
    pub duration: Duration,
    pub on_exit: &'a OnExit,
    pub default_backend_id: &'a str,
    /// When a pattern last fired, if one did.
    pub last_pattern_fire: Option<Moment>,
    /// Whether a signal to this program ended the run.
    pub shutdown_due_to_signal: bool,
    pub now: Moment,
}

impl<'a> ExitContext<'a> {
    /// Whether a pattern fired less than the dedupe window ago.
    pub open spec fn fired_recently(&self) -> bool {
        self.last_pattern_fire matches Some(last) && self.now.since(last).nanos
            < self.on_exit.failure_dedupe_window_ms * 1_000_000
    }

    /// The sensation to fire, if any.
    pub open spec fn wanted(&self) -> Option<Seq<char>> {
        if self.shutdown_due_to_signal {
            None
        } else if self.status.code == Some(0i32) {
            if self.on_exit.success_sensation@.len() == 0 || self.duration.nanos
                < self.on_exit.success_min_duration_ms * 1_000_000 {
                None
            } else {
                Some(self.on_exit.success_sensation@)
            }
        } else {
            if self.on_exit.failure_sensation@.len() == 0 || self.fired_recently() {
                None
            } else {
                Some(self.on_exit.failure_sensation@)
            }
        }
    }
}

/// The sensation to fire, if any.
pub fn exit_sensation<'a>(ctx: &ExitContext<'a>) -> (r: Option<&'a str>)
    ensures
        match r {
            Some(s) => ctx.wanted() == Some(s@),
            None => ctx.wanted() is None,
        },
        ctx.shutdown_due_to_signal ==> r is None,
        r matches Some(s) ==> s@.len() > 0 && s@ == (if ctx.status.code == Some(0i32) {
            ctx.on_exit.success_sensation@
        } else {
            ctx.on_exit.failure_sensation@
        }),
        !ctx.shutdown_due_to_signal && ctx.status.code == Some(0i32) ==> (r is Some
            <==> ctx.on_exit.success_sensation@.len() > 0 && ctx.duration.nanos
            >= ctx.on_exit.success_min_duration_ms * 1_000_000),
        !ctx.shutdown_due_to_signal && ctx.status.code != Some(0i32) ==> (r is Some
            <==> ctx.on_exit.failure_sensation@.len() > 0 && (ctx.last_pattern_fire matches Some(
            last,
        ) ==> ctx.now.since(last).nanos >= ctx.on_exit.failure_dedupe_window_ms * 1_000_000)),
{
    if ctx.shutdown_due_to_signal {
        return None;
    }
    let on_exit: &'a OnExit = ctx.on_exit;
    if ctx.status.success() {
        if on_exit.success_sensation.as_str().is_empty() {
            return None;
        }
        let min = Duration::from_millis(on_exit.success_min_duration_ms);
        if ctx.duration.nanos < min.nanos {
            return None;
        }
        return Some(on_exit.success_sensation.as_str());
    }
    if on_exit.failure_sensation.as_str().is_empty() {
        return None;
    }
    if let Some(last) = ctx.last_pattern_fire {
        let window = Duration::from_millis(on_exit.failure_dedupe_window_ms);
        if ctx.now.saturating_duration_since(last).nanos < window.nanos {
            return None;
        }
    }
    Some(on_exit.failure_sensation.as_str())
}

/// Whether `request` is the one that fires the sensation `wanted` on `backend_id`: none where
/// none is wanted, else one with that sensation, sent at a time that the wall clock shows.
pub open spec fn answers(
    request: Option<TriggerRequest>,
    wanted: Option<Seq<char>>,
    backend_id: Seq<char>,
) -> bool {
    match wanted {
        Some(sensation) => request matches Some(req) && exists|unix_ms: u128|
            crate::time::wall_clock_shows(unix_ms) && req@ == #[trigger] crate::trigger::exit_request(
                sensation,
                backend_id,
                unix_ms,
            ),
        None => request is None,
    }
}

/// The request to fire now that the command has finished, if any. Its trace id holds the time,
/// which the wall clock says.
pub fn handle(ctx: ExitContext) -> (r: Option<TriggerRequest>)
    ensures
        answers(r, ctx.wanted(), ctx.default_backend_id@),
{
    match exit_sensation(&ctx) {
        Some(sensation) => Some(build_exit_trigger(sensation, ctx.default_backend_id)),
        None => None,
    }
}

/// After a signal nothing is fired, whatever else holds.
pub proof fn law_signal_suppresses(ctx: ExitContext)
    requires
        ctx.shutdown_due_to_signal,
    ensures
        ctx.wanted() is None,
{
}

/// An empty sensation disables its side, and only its side can fire: a success never fires the
/// failure sensation, a failure never the success sensation.
pub proof fn law_sides_are_separate(ctx: ExitContext)
    ensures
        ctx.wanted() matches Some(s) ==> s.len() > 0 && s == (if ctx.status.code == Some(0i32) {
            ctx.on_exit.success_sensation@
        } else {
            ctx.on_exit.failure_sensation@
        }),
{
}

/// A success fires its sensation exactly where the run lasted at least the minimum.
pub proof fn law_fast_success_is_quiet(ctx: ExitContext)
    requires
        !ctx.shutdown_due_to_signal,
        ctx.status.code == Some(0i32),
        ctx.on_exit.success_sensation@.len() > 0,
    ensures
        ctx.wanted() is Some <==> ctx.duration.nanos >= ctx.on_exit.success_min_duration_ms
            * 1_000_000,
{
}

/// A failure fires at most once in the dedupe window: where a pattern fired less than the window
/// ago its own sensation stays alone, and from the window's end on the failure fires.
pub proof fn law_failure_is_deduped(ctx: ExitContext, fired: Moment)
    requires
        !ctx.shutdown_due_to_signal,
        ctx.status.code != Some(0i32),
        ctx.on_exit.failure_sensation@.len() > 0,
        ctx.last_pattern_fire == Some(fired),
    ensures
        ctx.wanted() is Some <==> ctx.now.since(fired).nanos
            >= ctx.on_exit.failure_dedupe_window_ms * 1_000_000,
{
}

/// A failure that no pattern has told is told: where nothing has fired in the run, every status but
/// code zero fires the failure sensation, whichever code it has or signal ended it, however long
/// the run was and however wide the dedupe window is.
pub proof fn law_an_untold_failure_is_told(ctx: ExitContext)
    requires
        !ctx.shutdown_due_to_signal,
        ctx.status.code != Some(0i32),
        ctx.on_exit.failure_sensation@.len() > 0,
        ctx.last_pattern_fire is None,
    ensures
        ctx.wanted() == Some(ctx.on_exit.failure_sensation@),
{
}

/// Of the status only counts whether it is code zero: two runs that differ in nothing else fire the
/// same.
pub proof fn law_all_failures_are_alike(a: ExitContext, b: ExitContext)
    requires
        a.status.code == Some(0i32) <==> b.status.code == Some(0i32),
        a.duration == b.duration,
        a.on_exit == b.on_exit,
        a.last_pattern_fire == b.last_pattern_fire,
        a.shutdown_due_to_signal == b.shutdown_due_to_signal,
        a.now == b.now,
    ensures
        a.wanted() == b.wanted(),
{
}

/// The answer to a wanted sensation is a request that plays it on the backend, with nothing else
/// set and a trace id of the wall clock's time; the answer to none is none.
pub proof fn law_an_answer_plays_what_is_wanted(
    request: Option<TriggerRequest>,
    wanted: Option<Seq<char>>,
    backend_id: Seq<char>,
)
    requires
        answers(request, wanted, backend_id),
    ensures
        wanted is None ==> request is None,
        wanted matches Some(sensation) ==> request matches Some(req) && {
            &&& req@.sensation == Some(sensation)
            &&& req@.backend_id == backend_id
            &&& req@.intensity_scale is None
            &&& req@.priority == 0
            &&& req@.zone_ids.len() == 0
            &&& exists|unix_ms: u128| #[trigger]
                crate::time::wall_clock_shows(unix_ms) && req@.client_trace_id
                    == crate::trigger::exit_trace_id(unix_ms)
        },
{
    if let Some(sensation) = wanted {
        let req = request->0;
        let unix_ms = choose|unix_ms: u128|
            crate::time::wall_clock_shows(unix_ms) && req@ == #[trigger] crate::trigger::exit_request(
                sensation,
                backend_id,
                unix_ms,
            );
        assert(crate::time::wall_clock_shows(unix_ms));
    }
}

} // verus!
