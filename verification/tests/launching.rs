//! From the command line and the configuration to a run.

use smited_watch::cli::{tracing_filter, Cli, DEFAULT_BACKEND_ID};
use smited_watch::config::{
    Config, Connection, ConnectionStrategy, OnExit, Pattern, SmitedSection,
};
use smited_watch::launch::{
    banner, banner_line, build_wrap_options, created_notice, log_filter, settings, startup,
    Startup,
};
use smited_watch::time::Duration;
use smited_watch::wrap::WrapOptions;

fn cli(host: Option<&str>, backend_id: Option<&str>, dry_run: bool) -> Cli<String, String> {
    Cli {
        config: None,
        host: host.map(|s| s.to_string()),
        backend_id: backend_id.map(|s| s.to_string()),
        verbose: 0,
        quiet: false,
        dry_run,
        no_banner: false,
        command: vec!["npm".to_string(), "run".to_string(), "dev".to_string()],
    }
}

fn section(host: Option<&str>, backend_id: Option<&str>) -> SmitedSection {
    SmitedSection {
        host: host.map(|s| s.to_string()),
        backend_id: backend_id.map(|s| s.to_string()),
        connection: Connection::default(),
    }
}

#[test]
fn no_command_prints_help_and_exits_nonzero() {
    let none: Vec<String> = Vec::new();
    assert_eq!(startup(&none, None), Startup::Help { exit_code: 2 });
    assert_eq!(startup(&none, Some("1")), Startup::Help { exit_code: 2 });
}

#[test]
fn smited_watch_disable_envvar_makes_it_pure_passthrough() {
    let command = vec!["echo", "hi"];
    assert_eq!(startup(&command, Some("1")), Startup::Passthrough);
    for other in [None, Some(""), Some("0"), Some("true"), Some("11")] {
        assert_eq!(startup(&command, other), Startup::Wrap);
    }
}

#[test]
fn verbosity_picks_the_level() {
    assert_eq!(tracing_filter(0, false), "smited_watch=info");
    assert_eq!(tracing_filter(1, false), "smited_watch=debug");
    assert_eq!(tracing_filter(2, false), "smited_watch=trace");
    assert_eq!(tracing_filter(255, false), "smited_watch=trace");
    assert_eq!(tracing_filter(0, true), "off");
    assert_eq!(tracing_filter(3, true), "off");
}

#[test]
fn rust_log_goes_over_everything() {
    assert_eq!(log_filter(Some("warn".to_string()), 2, true), "warn");
    assert_eq!(log_filter(None, 2, true), "off");
    assert_eq!(log_filter(None, 1, false), "smited_watch=debug");
}

#[test]
fn the_command_line_goes_over_the_configuration() {
    let s = settings(&cli(Some("a:1"), Some("x"), false), &section(Some("b:2"), Some("y")));
    assert_eq!(s.host.as_deref(), Some("a:1"));
    assert_eq!(s.backend_id, "x");
    let s = settings(&cli(None, None, false), &section(Some("b:2"), Some("y")));
    assert_eq!(s.host.as_deref(), Some("b:2"));
    assert_eq!(s.backend_id, "y");
    let s = settings(&cli(None, None, false), &section(None, None));
    assert_eq!(s.host, None);
    assert_eq!(s.backend_id, "mock-owo");
    assert_eq!(s.backend_id, DEFAULT_BACKEND_ID);
}

#[test]
fn dry_run_takes_the_host_away() {
    let s = settings(&cli(Some("a:1"), None, true), &section(Some("b:2"), None));
    assert_eq!(s.host, None);
}

#[test]
fn the_banner_names_the_command() {
    let words = cli(None, None, false).command;
    assert_eq!(banner_line(&words, false), "[smited-watch] wrapping npm run dev");
    assert_eq!(
        banner_line(&words, true),
        "[smited-watch] wrapping npm run dev (dry-run)"
    );
    assert_eq!(
        banner_line(&vec!["make".to_string()], false),
        "[smited-watch] wrapping make"
    );
    assert_eq!(banner_line(&Vec::new(), false), "[smited-watch] wrapping ");
    assert!(banner(&words, false, false, false).is_some());
    assert!(banner(&words, false, true, false).is_none());
    assert!(banner(&words, false, false, true).is_none());
}

#[test]
fn a_new_configuration_is_announced() {
    assert_eq!(
        created_notice("/h/watch.toml", true, false).as_deref(),
        Some(
            "[smited-watch] wrote default config template to /h/watch.toml \
             — edit it to add patterns"
        )
    );
    assert_eq!(created_notice("/h/watch.toml", true, true), None);
    assert_eq!(created_notice("/h/watch.toml", false, false), None);
}

#[test]
fn options_are_put_together() {
    let config = Config {
        smited: SmitedSection {
            host: Some("ignored:1".to_string()),
            backend_id: None,
            connection: Connection {
                timeout_ms: 750,
                strategy: ConnectionStrategy::PerTrigger,
            },
        },
        patterns: vec![Pattern {
            name: "ts".to_string(),
            regex: "x".to_string(),
            sensation: "s".to_string(),
            backend_id: None,
            debounce_ms: 250,
            intensity_scale: None,
            priority: None,
            compiled: None,
        }],
        on_exit: OnExit::default(),
    };
    let cli = cli(Some("a:1"), None, false);
    let s = settings(&cli, &config.smited);
    let opts: WrapOptions<String, u32> = build_wrap_options(cli, config, s);
    assert_eq!(opts.cmd, ["npm", "run", "dev"]);
    assert_eq!(opts.patterns.len(), 1);
    assert_eq!(opts.debouncers.len(), 1);
    assert_eq!(opts.trigger_client.timeout(), Duration::from_millis(750));
    assert!(!opts.trigger_client.is_dry_run());
    assert_eq!(opts.default_backend_id, "mock-owo");
    assert!(!opts.force_pipes);
}
