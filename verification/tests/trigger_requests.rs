//! The requests that are sent to the daemon.

use smited_watch::config::Pattern;
use smited_watch::time::{unix_ms, unix_ms_at};
use smited_watch::trigger::{
    build_exit_trigger, build_exit_trigger_at, build_pattern_trigger, build_pattern_trigger_at,
    Sensation,
};

fn pat_min(name: &str, sensation: &str) -> Pattern {
    Pattern {
        name: name.into(),
        regex: ".".into(),
        sensation: sensation.into(),
        backend_id: None,
        debounce_ms: 500,
        intensity_scale: None,
        priority: None,
        compiled: None,
    }
}

#[test]
fn pattern_trigger_uses_default_backend_when_pattern_omits_one() {
    let p = pat_min("ts", "compile_error_mild");
    let req = build_pattern_trigger(&p, "mock-owo");
    assert_eq!(req.backend_id, "mock-owo");
}

#[test]
fn pattern_trigger_uses_pattern_backend_override_when_present() {
    let mut p = pat_min("ts", "compile_error_mild");
    p.backend_id = Some("owo-primary".into());
    let req = build_pattern_trigger(&p, "mock-owo");
    assert_eq!(req.backend_id, "owo-primary");
}

#[test]
fn pattern_trigger_sets_sensation_oneof_to_name() {
    let p = pat_min("ts", "compile_error_mild");
    let req = build_pattern_trigger(&p, "mock-owo");
    match req.sensation {
        Some(Sensation::SensationName(name)) => assert_eq!(name, "compile_error_mild"),
        other => panic!("expected SensationName variant, got {other:?}"),
    }
}

#[test]
fn pattern_trigger_propagates_optional_intensity_and_priority() {
    let mut p = pat_min("ts", "compile_error_mild");
    p.intensity_scale = Some(75);
    p.priority = Some(25);
    let req = build_pattern_trigger(&p, "mock-owo");
    assert_eq!(req.intensity_scale, Some(75));
    assert_eq!(req.priority, 25);
}

#[test]
fn pattern_trigger_priority_defaults_to_zero() {
    let p = pat_min("ts", "compile_error_mild");
    let req = build_pattern_trigger(&p, "mock-owo");
    assert_eq!(req.priority, 0);
}

#[test]
fn pattern_trigger_intensity_defaults_to_none() {
    let p = pat_min("ts", "compile_error_mild");
    let req = build_pattern_trigger(&p, "mock-owo");
    assert_eq!(req.intensity_scale, None);
}

#[test]
fn pattern_trigger_trace_id_format_includes_pattern_name() {
    let p = pat_min("vite_error", "compile_error_severe");
    let req = build_pattern_trigger(&p, "mock-owo");
    assert!(
        req.client_trace_id.starts_with("watch-vite_error-"),
        "got {}",
        req.client_trace_id
    );
    let suffix = req.client_trace_id.trim_start_matches("watch-vite_error-");
    assert!(
        !suffix.is_empty() && suffix.chars().all(|c| c.is_ascii_digit()),
        "got suffix {suffix:?}"
    );
}

#[test]
fn exit_trigger_trace_id_format() {
    let req = build_exit_trigger("deploy_success", "mock-owo");
    assert!(
        req.client_trace_id.starts_with("watch-on-exit-"),
        "got {}",
        req.client_trace_id
    );
    assert_eq!(req.backend_id, "mock-owo");
    match req.sensation {
        Some(Sensation::SensationName(n)) => assert_eq!(n, "deploy_success"),
        other => panic!("expected SensationName, got {other:?}"),
    }
    assert_eq!(req.intensity_scale, None);
    assert_eq!(req.priority, 0);
}

#[test]
fn trace_ids_end_with_the_time() {
    let p = pat_min("vite_error", "s");
    assert_eq!(
        build_pattern_trigger_at(&p, "b", 1_700_000_000_123).client_trace_id,
        "watch-vite_error-1700000000123"
    );
    assert_eq!(
        build_pattern_trigger_at(&p, "b", 0).client_trace_id,
        "watch-vite_error-0"
    );
    assert_eq!(
        build_exit_trigger_at("s", "b", 42).client_trace_id,
        "watch-on-exit-42"
    );
}

#[test]
fn the_time_in_a_trace_id_is_todays() {
    let req = build_exit_trigger("s", "b");
    let ms: u128 = req.client_trace_id["watch-on-exit-".len()..]
        .parse()
        .expect("a number");
    // 2020-09-13, and the year 5138.
    assert!(ms > 1_600_000_000_000 && ms < 100_000_000_000_000);
}

#[test]
fn wall_clock_readings_are_cut_to_milliseconds() {
    assert_eq!(unix_ms(Some(1_999_999)), 1);
    assert_eq!(unix_ms(Some(2_000_000)), 2);
    assert_eq!(unix_ms(None), 0);
}

#[test]
fn times_are_counted_from_the_epoch() {
    let epoch = std::time::UNIX_EPOCH;
    let span = std::time::Duration::from_nanos;
    assert_eq!(unix_ms_at(&epoch), 0);
    assert_eq!(unix_ms_at(&(epoch + span(1_999_999))), 1);
    assert_eq!(
        unix_ms_at(&(epoch + std::time::Duration::from_secs(1_700_000_000))),
        1_700_000_000_000
    );
    assert_eq!(unix_ms_at(&(epoch - span(5_000_000))), 0);
}
