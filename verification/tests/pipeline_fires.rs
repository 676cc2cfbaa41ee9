//! From output to requests, on a clock that is moved by hand.

use std::sync::Arc;
use std::time::Duration as Span;

use smited_watch::cli::Cli;
use smited_watch::client::FirePlan;
use smited_watch::config::{
    load, Config, OnExit, Pattern, RawConfig, RawConnection, RawOnExit, RawPattern, RawSmited,
};
use smited_watch::debounce::Debouncer;
use smited_watch::launch::{build_wrap_options, settings, startup, Startup};
use smited_watch::scan::{MatchEvent, StreamId};
use smited_watch::time::{Clock, Duration, Moment};
use smited_watch::trigger::{Sensation, TriggerRequest};
use smited_watch::wrap::pipeline::{debouncers_for, dispatch_events_at, Pipeline, Reading};
use smited_watch::wrap::status::{propagate_exit_code, ExitStatus};
use smited_watch::wrap::WrapOptions;

const OUT: StreamId = StreamId::Stdout;
const ERR: StreamId = StreamId::Stderr;

fn on_paused_clock<F: std::future::Future<Output = ()>>(test: F) {
    tokio::runtime::Builder::new_current_thread()
        .enable_all()
        .start_paused(true)
        .build()
        .expect("runtime")
        .block_on(test);
}

async fn advance(ms: u64) {
    tokio::time::advance(Span::from_millis(ms)).await;
}

fn match_config() -> Config {
    let raw = RawConfig {
        smited: Some(RawSmited {
            host: Some("127.0.0.1:7777".to_string()),
            backend_id: Some("mock-owo".to_string()),
            connection: Some(RawConnection {
                timeout_ms: Some(1500),
                strategy: Some("per_trigger".to_string()),
            }),
        }),
        patterns: Some(vec![RawPattern {
            name: "ts".to_string(),
            regex: r"error TS\d+".to_string(),
            sensation: "compile_error_mild".to_string(),
            backend_id: None,
            debounce_ms: Some(0),
            intensity_scale: None,
            priority: None,
        }]),
        on_exit: Some(RawOnExit {
            success_sensation: Some("deploy_success".to_string()),
            failure_sensation: Some(String::new()),
            success_min_duration_ms: Some(1),
            failure_dedupe_window_ms: Some(2000),
        }),
    };
    match load(raw) {
        Ok(cfg) => cfg,
        Err(e) => panic!("{}", e.message()),
    }
}

fn cli(dry_run: bool) -> Cli<String, String> {
    Cli {
        config: None,
        host: None,
        backend_id: None,
        verbose: 0,
        quiet: true,
        dry_run,
        no_banner: true,
        command: vec!["bash".to_string(), "-c".to_string()],
    }
}

fn options(dry_run: bool) -> WrapOptions<String, u32> {
    let cfg = match_config();
    let cli = cli(dry_run);
    let s = settings(&cli, &cfg.smited);
    build_wrap_options(cli, cfg, s)
}

fn pipeline(
    patterns: Arc<Vec<Pattern>>,
    debouncers: Vec<Debouncer>,
    backend_id: &str,
) -> Pipeline {
    match Pipeline::new(patterns, debouncers, backend_id.to_string(), Clock::start()) {
        Ok(p) => p,
        Err(e) => panic!("{}", e.message()),
    }
}

/// What a run fires: its output, a while, its exit.
async fn fired(output: &[u8], ms: u64, raw_status: i32) -> (i32, Vec<TriggerRequest>) {
    let opts = options(false);
    let mut p = pipeline(opts.patterns, opts.debouncers, &opts.default_backend_id);
    let mut requests = p.on_output(OUT, output);
    advance(ms).await;
    let status = ExitStatus::from_raw(raw_status);
    requests.extend(p.finish(status, &opts.on_exit, false));
    (propagate_exit_code(status), requests)
}

fn name(r: &TriggerRequest) -> &str {
    match &r.sensation {
        Some(Sensation::SensationName(n)) => n,
        None => panic!("expected SensationName"),
    }
}

fn names(requests: &[TriggerRequest]) -> Vec<&str> {
    requests.iter().map(name).collect()
}

#[test]
fn matched_pattern_fires_one_trigger_with_expected_sensation() {
    on_paused_clock(async {
        let (exit, received) = fired(b"error TS1234\n", 0, 1 << 8).await;
        assert_eq!(exit, 1, "child exit 1 should propagate");
        assert_eq!(
            received.len(),
            1,
            "exactly one trigger expected (failure_sensation is disabled, success path won't fire)"
        );
        assert_eq!(
            received[0].backend_id, "mock-owo",
            "backend_id should fall back to config default"
        );
        assert_eq!(name(&received[0]), "compile_error_mild");
        assert!(
            received[0].client_trace_id.starts_with("watch-ts-"),
            "trace id format: {}",
            received[0].client_trace_id
        );
    });
}

#[test]
fn dry_run_fires_no_triggers() {
    on_paused_clock(async {
        let (_, received) = fired(b"error TS1234\n", 0, 1 << 8).await;
        let opts = options(true);
        assert!(opts.trigger_client.is_dry_run());
        for req in &received {
            assert!(
                matches!(opts.trigger_client.fire(req), FirePlan::DryRun { .. }),
                "dry-run must not fire any triggers; got {} reqs",
                received.len()
            );
        }
        let sends = options(false);
        assert!(matches!(
            sends.trigger_client.fire(&received[0]),
            FirePlan::Connect { .. }
        ));
    });
}

#[test]
fn smited_watch_disable_fires_no_triggers() {
    assert_eq!(
        startup(&cli(false).command, Some("1")),
        Startup::Passthrough,
        "SMITED_WATCH_DISABLE=1 must skip the trigger pipeline"
    );
}

#[test]
fn on_exit_success_sensation_fires_when_duration_threshold_met() {
    on_paused_clock(async {
        let (exit, received) = fired(b"nothing-special\n", 50, 0).await;
        assert_eq!(exit, 0);
        assert_eq!(
            received.len(),
            1,
            "exactly one trigger expected: success on-exit"
        );
        assert_eq!(name(&received[0]), "deploy_success");
        assert!(received[0].client_trace_id.starts_with("watch-on-exit-"));
    });
}

fn pat(name: &str, regex: &str, debounce_ms: u64) -> Pattern {
    Pattern {
        name: name.into(),
        regex: regex.into(),
        sensation: format!("{name}_sensation"),
        backend_id: None,
        debounce_ms,
        intensity_scale: None,
        priority: None,
        compiled: None,
    }
}

fn of(patterns: Vec<Pattern>) -> Pipeline {
    let debouncers = debouncers_for(&patterns);
    pipeline(Arc::new(patterns), debouncers, "backend")
}

fn on_exit(success: &str, failure: &str) -> OnExit {
    OnExit {
        success_sensation: success.into(),
        failure_sensation: failure.into(),
        success_min_duration_ms: 0,
        failure_dedupe_window_ms: 2000,
    }
}

#[test]
fn matches_within_the_window_are_dropped() {
    on_paused_clock(async {
        let mut p = of(vec![pat("a", "aaa", 500), pat("b", "bbb", 500)]);
        assert_eq!(names(&p.on_output(OUT, b"aaa\naaa\n")), ["a_sensation"]);
        // The other pattern has a window of its own.
        assert_eq!(names(&p.on_output(ERR, b"aaa bbb\n")), ["b_sensation"]);
        advance(499).await;
        assert!(p.on_output(OUT, b"aaa\n").is_empty());
        advance(1).await;
        assert_eq!(names(&p.on_output(OUT, b"aaa\n")), ["a_sensation"]);
    });
}

#[test]
fn without_a_window_every_match_fires() {
    on_paused_clock(async {
        let mut p = of(vec![pat("a", "aaa", 0)]);
        assert_eq!(p.on_output(OUT, b"aaa\naaa\naaa\n").len(), 3);
    });
}

#[test]
fn a_last_line_without_an_end_counts() {
    on_paused_clock(async {
        let mut p = of(vec![pat("a", "aaa", 0)]);
        assert!(p.on_output(OUT, b"aaa").is_empty());
        let fired = p.finish(ExitStatus::from_raw(1 << 8), &on_exit("", "failed"), false);
        // Its fire is recent enough to tell the failure by itself.
        assert_eq!(names(&fired), ["a_sensation"]);
    });
}

#[test]
fn a_failure_long_after_the_last_fire_is_told() {
    on_paused_clock(async {
        let mut p = of(vec![pat("a", "aaa", 0)]);
        assert_eq!(p.on_output(OUT, b"aaa\n").len(), 1);
        advance(1999).await;
        assert!(p
            .on_exit(ExitStatus::from_raw(1 << 8), &on_exit("", "failed"), false)
            .is_none());
        advance(1).await;
        let fired = p.finish(ExitStatus::from_raw(1 << 8), &on_exit("", "failed"), false);
        assert_eq!(names(&fired), ["failed"]);
        assert_eq!(fired[0].backend_id, "backend");
    });
}

#[test]
fn after_a_signal_the_exit_is_silent() {
    on_paused_clock(async {
        let mut p = of(vec![pat("a", "aaa", 0)]);
        assert!(p.on_output(OUT, b"aaa").is_empty());
        let fired = p.finish(ExitStatus::from_raw(2), &on_exit("ok", "failed"), true);
        assert_eq!(names(&fired), ["a_sensation"]);
        assert!(p
            .finish(ExitStatus::from_raw(0), &on_exit("ok", "failed"), true)
            .is_empty());
    });
}

#[test]
fn a_pipeline_needs_patterns_that_compile() {
    on_paused_clock(async {
        let patterns = vec![pat("fine", "x", 0), pat("broken", "(", 0)];
        let debouncers = debouncers_for(&patterns);
        let err = match Pipeline::new(
            Arc::new(patterns),
            debouncers,
            "b".to_string(),
            Clock::start(),
        ) {
            Ok(_) => panic!("should not build"),
            Err(e) => e.message(),
        };
        assert!(err.contains("broken"), "{err}");
    });
}

#[test]
fn events_are_dispatched_at_their_readings() {
    let patterns = vec![pat("a", "a", 500), pat("b", "b", 0)];
    let mut debouncers = debouncers_for(&patterns);
    let event = |idx: usize| MatchEvent {
        pattern_idx: idx,
        stream: OUT,
        line_excerpt: "line".to_string(),
    };
    let at = |ms: u64| Reading {
        debounce: Moment {
            nanos: Duration::from_millis(ms).nanos,
        },
        fired: Moment {
            nanos: Duration::from_millis(ms).nanos + 1,
        },
        unix_ms: 1000 + ms as u128,
    };
    let mut last = None;
    let fired = dispatch_events_at(
        &vec![event(0), event(0), event(1), event(7), event(0)],
        &patterns,
        &mut debouncers,
        "backend",
        &mut last,
        &vec![at(10), at(509), at(509), at(509), at(510)],
    );
    let ids: Vec<&str> = fired.iter().map(|r| r.client_trace_id.as_str()).collect();
    assert_eq!(ids, ["watch-a-1010", "watch-b-1509", "watch-a-1510"]);
    assert_eq!(
        last,
        Some(Moment {
            nanos: Duration::from_millis(510).nanos + 1
        })
    );
}

#[test]
fn an_event_without_a_debouncer_is_passed_over() {
    let patterns = vec![pat("a", "a", 0)];
    let mut last = None;
    let fired = dispatch_events_at(
        &vec![MatchEvent {
            pattern_idx: 0,
            stream: OUT,
            line_excerpt: String::new(),
        }],
        &patterns,
        &mut Vec::new(),
        "backend",
        &mut last,
        &vec![Reading {
            debounce: Moment { nanos: 0 },
            fired: Moment { nanos: 0 },
            unix_ms: 0,
        }],
    );
    assert!(fired.is_empty());
    assert_eq!(last, None);
}
