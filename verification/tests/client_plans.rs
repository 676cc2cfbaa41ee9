//! What a fire does, and on which connection.

use smited_watch::client::{endpoint_uri, FireOutcome, FirePlan, TriggerClient};
use smited_watch::config::ConnectionStrategy;
use smited_watch::time::Duration;
use smited_watch::trigger::{build_exit_trigger_at, TriggerRequest};

fn client(host: Option<&str>, strategy: ConnectionStrategy) -> TriggerClient<u32> {
    TriggerClient::new(
        host.map(|h| h.to_string()),
        strategy,
        Duration::from_millis(500),
    )
}

fn request() -> TriggerRequest {
    build_exit_trigger_at("deploy_success", "mock-owo", 5)
}

fn connects_to(plan: FirePlan) -> (String, bool) {
    match plan {
        FirePlan::Connect { uri, timeout, keep } => {
            assert_eq!(timeout, Duration::from_millis(500));
            (uri, keep)
        }
        other => panic!("expected a connection, got {other:?}"),
    }
}

#[test]
fn without_a_host_nothing_is_sent() {
    for strategy in [ConnectionStrategy::Persistent, ConnectionStrategy::PerTrigger] {
        let c = client(None, strategy);
        assert!(c.is_dry_run());
        match c.fire(&request()) {
            FirePlan::DryRun {
                sensation,
                backend_id,
                trace_id,
            } => {
                assert_eq!(sensation, "deploy_success");
                assert_eq!(backend_id, "mock-owo");
                assert_eq!(trace_id, "watch-on-exit-5");
            }
            other => panic!("expected a dry run, got {other:?}"),
        }
    }
}

#[test]
fn a_request_without_a_name_is_logged_as_inline() {
    let c = client(None, ConnectionStrategy::Persistent);
    let mut req = request();
    req.sensation = None;
    assert!(matches!(
        c.fire(&req),
        FirePlan::DryRun { sensation, .. } if sensation == "<inline>"
    ));
}

#[test]
fn a_scheme_is_added_where_there_is_none() {
    assert_eq!(endpoint_uri("rig.local:7777"), "http://rig.local:7777");
    assert_eq!(endpoint_uri("https://rig:1"), "https://rig:1");
    assert_eq!(endpoint_uri("unix://x"), "unix://x");
    assert_eq!(endpoint_uri("a:/b"), "http://a:/b");
    assert_eq!(endpoint_uri(""), "http://");
}

#[test]
fn a_persistent_client_keeps_its_connection_until_it_fails() {
    for failure in [FireOutcome::Rejected, FireOutcome::TimedOut] {
        let mut c = client(Some("h:1"), ConnectionStrategy::Persistent);
        assert!(!c.is_dry_run());
        assert_eq!(connects_to(c.fire(&request())), ("http://h:1".to_string(), true));
        c.connected(7);
        assert_eq!(c.channel(), Some(&7));
        c.finished(FireOutcome::Answered);
        assert!(matches!(c.fire(&request()), FirePlan::Reuse));
        c.finished(failure);
        assert_eq!(c.channel(), None);
        assert_eq!(connects_to(c.fire(&request())), ("http://h:1".to_string(), true));
    }
}

#[test]
fn a_failed_connect_changes_nothing() {
    let mut c = client(Some("h:1"), ConnectionStrategy::Persistent);
    c.finished(FireOutcome::ConnectFailed);
    assert_eq!(connects_to(c.fire(&request())), ("http://h:1".to_string(), true));
    c.connected(3);
    c.finished(FireOutcome::ConnectFailed);
    assert_eq!(c.channel(), Some(&3));
}

#[test]
fn a_per_trigger_client_connects_every_time() {
    let mut c = client(Some("h:1"), ConnectionStrategy::PerTrigger);
    for outcome in [
        FireOutcome::Answered,
        FireOutcome::Rejected,
        FireOutcome::TimedOut,
        FireOutcome::ConnectFailed,
    ] {
        assert_eq!(connects_to(c.fire(&request())), ("http://h:1".to_string(), false));
        c.connected(9);
        assert_eq!(c.channel(), None);
        c.finished(outcome);
    }
    assert_eq!(c.timeout(), Duration::from_millis(500));
}

#[test]
fn connecting_and_the_call_share_one_limit() {
    let c = client(Some("h:1"), ConnectionStrategy::Persistent);
    let ms = Duration::from_millis;
    assert_eq!(c.call_timeout(ms(0)), ms(500));
    assert_eq!(c.call_timeout(ms(200)), ms(300));
    assert_eq!(c.call_timeout(ms(500)), ms(0));
    assert_eq!(c.call_timeout(ms(700)), ms(0));
}
