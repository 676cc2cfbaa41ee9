//! What is fired when the command has finished.

use smited_watch::config::OnExit;
use smited_watch::exit::{handle, ExitContext};
use smited_watch::time::{Duration, Moment};
use smited_watch::trigger::{Sensation, TriggerRequest};
use smited_watch::wrap::status::ExitStatus;

fn on_exit(s: &str, f: &str, min_ms: u64, dedupe_ms: u64) -> OnExit {
    OnExit {
        success_sensation: s.into(),
        failure_sensation: f.into(),
        success_min_duration_ms: min_ms,
        failure_dedupe_window_ms: dedupe_ms,
    }
}

fn ok_status() -> ExitStatus {
    ExitStatus::from_raw(0)
}

fn fail_status() -> ExitStatus {
    ExitStatus::from_raw(1 << 8)
}

fn ms(ms: u64) -> Duration {
    Duration::from_millis(ms)
}

/// A minute after the clock was started.
fn now() -> Moment {
    Moment {
        nanos: Duration::from_secs(60).nanos,
    }
}

fn before_now(span: Duration) -> Option<Moment> {
    Some(Moment {
        nanos: now().nanos - span.nanos,
    })
}

fn ctx(
    status: ExitStatus,
    duration: Duration,
    on_exit: &OnExit,
    last_pattern_fire: Option<Moment>,
) -> ExitContext<'_> {
    ExitContext {
        status,
        duration,
        on_exit,
        default_backend_id: "mock-owo",
        last_pattern_fire,
        shutdown_due_to_signal: false,
        now: now(),
    }
}

fn sensation(req: Option<TriggerRequest>) -> Option<String> {
    req.map(|r| match r.sensation {
        Some(Sensation::SensationName(name)) => name,
        None => panic!("no sensation"),
    })
}

#[test]
fn signal_shutdown_skips_everything() {
    let cfg = on_exit("success", "fail", 0, 0);
    for status in [ok_status(), fail_status()] {
        let mut c = ctx(status, Duration::from_secs(60), &cfg, None);
        c.shutdown_due_to_signal = true;
        assert_eq!(sensation(handle(c)), None);
    }
}

#[test]
fn empty_sensations_short_circuit() {
    let cfg = on_exit("", "", 0, 0);
    for status in [ok_status(), fail_status()] {
        let c = ctx(status, Duration::from_secs(60), &cfg, None);
        assert_eq!(sensation(handle(c)), None);
    }
}

#[test]
fn fast_success_under_min_duration_is_suppressed() {
    let cfg = on_exit("deploy_success", "", 30_000, 0);
    let c = ctx(ok_status(), ms(200), &cfg, None);
    assert_eq!(sensation(handle(c)), None);
}

#[test]
fn failure_within_dedupe_window_is_suppressed() {
    let cfg = on_exit("", "compile_error_severe", 0, 2000);
    let c = ctx(
        fail_status(),
        Duration::from_secs(5),
        &cfg,
        before_now(ms(500)),
    );
    assert_eq!(sensation(handle(c)), None);
}

#[test]
fn failure_outside_dedupe_window_fires() {
    let cfg = on_exit("", "compile_error_severe", 0, 2000);
    let c = ctx(
        fail_status(),
        Duration::from_secs(5),
        &cfg,
        before_now(ms(2500)),
    );
    assert_eq!(
        sensation(handle(c)).as_deref(),
        Some("compile_error_severe")
    );
}

#[test]
fn failure_with_no_prior_pattern_fire_fires() {
    let cfg = on_exit("", "compile_error_severe", 0, 2000);
    let c = ctx(fail_status(), Duration::from_secs(5), &cfg, None);
    let req = handle(c).expect("fires");
    assert_eq!(req.backend_id, "mock-owo");
    assert!(req.client_trace_id.starts_with("watch-on-exit-"));
    assert_eq!(
        sensation(Some(req)).as_deref(),
        Some("compile_error_severe")
    );
}

#[test]
fn the_limits_themselves_fire() {
    let cfg = on_exit("yes", "no", 30_000, 2000);
    let c = ctx(ok_status(), ms(30_000), &cfg, None);
    assert_eq!(sensation(handle(c)).as_deref(), Some("yes"));
    let c = ctx(ok_status(), ms(29_999), &cfg, None);
    assert_eq!(sensation(handle(c)), None);
    let c = ctx(fail_status(), ms(1), &cfg, before_now(ms(2000)));
    assert_eq!(sensation(handle(c)).as_deref(), Some("no"));
    let c = ctx(fail_status(), ms(1), &cfg, before_now(ms(1999)));
    assert_eq!(sensation(handle(c)), None);
}

#[test]
fn the_sides_do_not_mix() {
    // A recent match does not silence a success, a short run does not silence a failure.
    let cfg = on_exit("yes", "no", 0, 2000);
    let c = ctx(ok_status(), ms(10), &cfg, before_now(ms(1)));
    assert_eq!(sensation(handle(c)).as_deref(), Some("yes"));
    let cfg = on_exit("yes", "no", 30_000, 2000);
    let c = ctx(fail_status(), ms(10), &cfg, None);
    assert_eq!(sensation(handle(c)).as_deref(), Some("no"));
    // Death by a signal is a failure.
    let c = ctx(ExitStatus::from_raw(9), ms(10), &cfg, None);
    assert_eq!(sensation(handle(c)).as_deref(), Some("no"));
}
