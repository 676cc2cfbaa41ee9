//! The configuration: schema, defaults, refusals.

use smited_watch::config::{
    self, Config, ConfigSource, ConnectionStrategy, EnvDirs, Platform, RawConfig, RawConnection,
    RawOnExit, RawPattern, RawSmited, TEMPLATE,
};
use smited_watch::error::WatchError;

const FULL_CONFIG: &str = r#"
[smited]
host = "windows-rig.local:7777"
backend_id = "mock-owo"

[smited.connection]
timeout_ms = 750
strategy = "per_trigger"

[[patterns]]
name = "ts_error"
regex = 'error TS\d+'
sensation = "compile_error_mild"
debounce_ms = 500
intensity_scale = 75
priority = 25

[[patterns]]
name = "vite_error"
regex = '\[vite\].*error'
sensation = "compile_error_severe"
backend_id = "owo-primary"

[on_exit]
success_sensation = "deploy_success"
failure_sensation = "compile_error_severe"
success_min_duration_ms = 12000
failure_dedupe_window_ms = 1500
"#;

fn text(t: &toml::Table, key: &str) -> Option<String> {
    t.get(key).map(|v| v.as_str().expect("a string").to_string())
}

fn number(t: &toml::Table, key: &str) -> Option<i64> {
    t.get(key).map(|v| v.as_integer().expect("an integer"))
}

fn table<'a>(t: &'a toml::Table, key: &str) -> Option<&'a toml::Table> {
    t.get(key).map(|v| v.as_table().expect("a table"))
}

fn raw(body: &str) -> RawConfig {
    let t: toml::Table = body.parse().expect("well-formed TOML");
    RawConfig {
        smited: table(&t, "smited").map(|s| RawSmited {
            host: text(s, "host"),
            backend_id: text(s, "backend_id"),
            connection: table(s, "connection").map(|c| RawConnection {
                timeout_ms: number(c, "timeout_ms").map(|n| n as u64),
                strategy: text(c, "strategy"),
            }),
        }),
        patterns: t.get("patterns").map(|ps| {
            let entries = ps.as_array().expect("an array");
            entries
                .iter()
                .map(|p| p.as_table().expect("a table"))
                .map(|p| RawPattern {
                    name: text(p, "name").expect("name"),
                    regex: text(p, "regex").expect("regex"),
                    sensation: text(p, "sensation").expect("sensation"),
                    backend_id: text(p, "backend_id"),
                    debounce_ms: number(p, "debounce_ms").map(|n| n as u64),
                    intensity_scale: number(p, "intensity_scale").map(|n| n as u32),
                    priority: number(p, "priority").map(|n| n as i32),
                })
                .collect()
        }),
        on_exit: table(&t, "on_exit").map(|e| RawOnExit {
            success_sensation: text(e, "success_sensation"),
            failure_sensation: text(e, "failure_sensation"),
            success_min_duration_ms: number(e, "success_min_duration_ms").map(|n| n as u64),
            failure_dedupe_window_ms: number(e, "failure_dedupe_window_ms").map(|n| n as u64),
        }),
    }
}

fn load(body: &str) -> Result<Config, WatchError> {
    config::load(raw(body))
}

#[test]
fn parses_fully_populated_config() {
    let cfg = load(FULL_CONFIG).expect("config should load");

    assert_eq!(cfg.smited.host.as_deref(), Some("windows-rig.local:7777"));
    assert_eq!(cfg.smited.backend_id.as_deref(), Some("mock-owo"));
    assert_eq!(cfg.smited.connection.timeout_ms, 750);
    assert!(matches!(
        cfg.smited.connection.strategy,
        ConnectionStrategy::PerTrigger
    ));

    assert_eq!(cfg.patterns.len(), 2);

    let p0 = &cfg.patterns[0];
    assert_eq!(p0.name, "ts_error");
    assert_eq!(p0.regex, r"error TS\d+");
    assert_eq!(p0.sensation, "compile_error_mild");
    assert_eq!(p0.debounce_ms, 500);
    assert_eq!(p0.intensity_scale, Some(75));
    assert_eq!(p0.priority, Some(25));
    assert!(
        p0.compiled.is_some(),
        "regex should be compiled at load time"
    );
    assert!(p0.compiled.as_ref().unwrap().is_match("error TS1234"));

    let p1 = &cfg.patterns[1];
    assert_eq!(p1.name, "vite_error");
    assert_eq!(p1.backend_id.as_deref(), Some("owo-primary"));
    assert_eq!(p1.debounce_ms, 500, "debounce_ms default = 500");
    assert_eq!(p1.intensity_scale, None);

    assert_eq!(cfg.on_exit.success_sensation, "deploy_success");
    assert_eq!(cfg.on_exit.failure_sensation, "compile_error_severe");
    assert_eq!(cfg.on_exit.success_min_duration_ms, 12000);
    assert_eq!(cfg.on_exit.failure_dedupe_window_ms, 1500);
}

#[test]
fn applies_defaults_when_optional_fields_omitted() {
    let cfg = load(
        r#"
[[patterns]]
name = "x"
regex = "x"
sensation = "x"
"#,
    )
    .expect("config should load");

    assert_eq!(cfg.smited.host, None);
    assert_eq!(cfg.smited.backend_id, None);
    assert_eq!(cfg.smited.connection.timeout_ms, 500);
    assert!(matches!(
        cfg.smited.connection.strategy,
        ConnectionStrategy::Persistent
    ));

    assert_eq!(cfg.patterns[0].debounce_ms, 500);
    assert!(cfg.patterns[0].backend_id.is_none());
    assert!(cfg.patterns[0].intensity_scale.is_none());
    assert!(cfg.patterns[0].priority.is_none());

    assert_eq!(cfg.on_exit.success_sensation, "");
    assert_eq!(cfg.on_exit.failure_sensation, "");
    assert_eq!(cfg.on_exit.success_min_duration_ms, 30_000);
    assert_eq!(cfg.on_exit.failure_dedupe_window_ms, 2_000);
}

#[test]
fn rejects_unparseable_pattern_regex_with_pattern_name_in_error() {
    let err = load(
        r#"
[[patterns]]
name = "broken_pattern"
regex = "(unclosed"
sensation = "x"
"#,
    )
    .expect_err("bad regex should error");
    let msg = err.message();
    assert!(
        msg.contains("broken_pattern"),
        "error should mention pattern name 'broken_pattern', got: {msg}"
    );
    assert!(
        msg.starts_with("pattern \"broken_pattern\": invalid regex \"(unclosed\": "),
        "got: {msg}"
    );
    assert!(msg.contains("unclosed group"), "got: {msg}");
}

#[test]
fn empty_on_exit_sensations_are_allowed() {
    let cfg = load(
        r#"
[on_exit]
success_sensation = ""
failure_sensation = ""
"#,
    )
    .expect("empty sensations are valid");
    assert_eq!(cfg.on_exit.success_sensation, "");
    assert_eq!(cfg.on_exit.failure_sensation, "");
}

#[test]
fn write_template_produces_a_valid_loadable_config() {
    let body = TEMPLATE;
    assert!(body.contains("[smited]"), "template missing [smited]");
    assert!(
        body.contains("[[patterns]]"),
        "template missing [[patterns]]"
    );
    assert!(body.contains("[on_exit]"), "template missing [on_exit]");

    let cfg = load(body).expect("template should load cleanly");
    assert!(
        !cfg.patterns.is_empty(),
        "template should ship example patterns"
    );
    assert_eq!(cfg.smited.host, None, "the template sends nothing");
    assert!(cfg
        .patterns
        .iter()
        .any(|p| p.compiled.as_ref().unwrap().is_match("error TS1234")));
}

#[test]
fn known_strategy_strings_parse() {
    for (s, expect_per_trigger) in [("persistent", false), ("per_trigger", true)] {
        let cfg = load(&format!(
            r#"
[smited.connection]
strategy = "{s}"
"#
        ))
        .unwrap();
        assert_eq!(
            matches!(
                cfg.smited.connection.strategy,
                ConnectionStrategy::PerTrigger
            ),
            expect_per_trigger,
            "strategy={s}"
        );
    }
}

#[test]
fn unknown_strategy_string_errors() {
    let err = load(
        r#"
[smited.connection]
strategy = "carrier-pigeon"
"#,
    )
    .expect_err("unknown strategy should error");
    let msg = err.message().to_lowercase();
    assert!(
        msg.contains("strategy") || msg.contains("carrier-pigeon"),
        "error should mention the bad strategy, got: {msg}"
    );
    assert_eq!(
        msg,
        "smited.connection.strategy: unknown variant `carrier-pigeon`, \
         expected `persistent` or `per_trigger`"
    );
}

fn entry(name: &str) -> RawPattern {
    RawPattern {
        name: name.to_string(),
        regex: "x".to_string(),
        sensation: "s".to_string(),
        backend_id: None,
        debounce_ms: None,
        intensity_scale: None,
        priority: None,
    }
}

fn with_patterns(patterns: Vec<RawPattern>) -> RawConfig {
    RawConfig {
        smited: None,
        patterns: Some(patterns),
        on_exit: None,
    }
}

#[test]
fn an_intensity_over_one_hundred_is_refused() {
    let mut p = entry("loud");
    p.intensity_scale = Some(100);
    assert!(config::load(with_patterns(vec![p.clone()])).is_ok());
    p.intensity_scale = Some(101);
    let err = config::load(with_patterns(vec![p])).expect_err("out of range");
    assert!(matches!(err, WatchError::IntensityOutOfRange { .. }));
    assert_eq!(
        err.message(),
        "pattern \"loud\": intensity_scale 101 out of range 0..=100"
    );
}

#[test]
fn a_priority_outside_its_range_is_refused() {
    for good in [-1000, 0, 1000] {
        let mut p = entry("p");
        p.priority = Some(good);
        assert!(config::load(with_patterns(vec![p])).is_ok());
    }
    for (bad, said) in [(-1001, "-1001"), (1001, "1001")] {
        let mut p = entry("pushy \"one\"");
        p.priority = Some(bad);
        let err = config::load(with_patterns(vec![p])).expect_err("out of range");
        assert!(matches!(err, WatchError::PriorityOutOfRange { .. }));
        assert_eq!(
            err.message(),
            format!("pattern \"pushy \\\"one\\\"\": priority {said} out of range -1000..=1000")
        );
    }
}

#[test]
fn the_first_fault_is_the_one_reported() {
    let mut second = entry("second");
    second.regex = "(".to_string();
    let mut third = entry("third");
    third.intensity_scale = Some(500);
    let err = config::load(with_patterns(vec![entry("first"), second, third]))
        .expect_err("two faults");
    assert!(matches!(err, WatchError::InvalidRegex { name, .. } if name == "second"));
}

#[test]
fn a_bad_regex_is_reported_before_a_bad_intensity() {
    let mut p = entry("both");
    p.regex = "[".to_string();
    p.intensity_scale = Some(101);
    p.priority = Some(5000);
    let err = config::load(with_patterns(vec![p])).expect_err("three faults");
    assert!(matches!(err, WatchError::InvalidRegex { .. }));
}

fn dirs(xdg: Option<&str>, home: Option<&str>, app_data: Option<&str>) -> EnvDirs<u8> {
    EnvDirs {
        xdg_config_home: xdg.map(|s| s.as_bytes().to_vec()),
        home: home.map(|s| s.as_bytes().to_vec()),
        app_data: app_data.map(|s| s.as_bytes().to_vec()),
    }
}

#[test]
fn the_default_path_follows_xdg_then_home() {
    let p = config::default_config_path(Platform::Unix, dirs(Some("/x"), Some("/h"), None)).unwrap();
    assert_eq!(p.base, b"/x".to_vec());
    assert_eq!(p.below, vec!["smited", "watch.toml"]);

    let p = config::default_config_path(Platform::Unix, dirs(None, Some("/h"), None)).unwrap();
    assert_eq!(p.base, b"/h".to_vec());
    assert_eq!(p.below, vec![".config", "smited", "watch.toml"]);

    let err = config::default_config_path(Platform::Unix, dirs(None, None, Some("a")))
        .expect_err("no home");
    assert_eq!(
        err.message(),
        "$HOME is unset; cannot compute default config path"
    );
}

#[test]
fn an_empty_xdg_directory_counts_as_unset() {
    let p = config::default_config_path(Platform::Unix, dirs(Some(""), Some("/h"), None)).unwrap();
    assert_eq!(p.base, b"/h".to_vec());
    assert_eq!(p.below, vec![".config", "smited", "watch.toml"]);
    assert!(config::default_config_path(Platform::Unix, dirs(Some(""), None, None)).is_err());
}

#[test]
fn the_default_path_on_other_platforms() {
    let p = config::default_config_path(Platform::Windows, dirs(Some("x"), None, Some("C:\\A")))
        .unwrap();
    assert_eq!(p.base, b"C:\\A".to_vec());
    assert_eq!(p.below, vec!["smited", "watch.toml"]);
    let err = config::default_config_path(Platform::Windows, dirs(None, Some("h"), None))
        .expect_err("no APPDATA");
    assert_eq!(
        err.message(),
        "%APPDATA% is unset; cannot compute default config path"
    );
    let err = config::default_config_path(Platform::Other, dirs(Some("x"), Some("h"), Some("a")))
        .expect_err("unsupported");
    assert_eq!(err.message(), "unsupported platform for default config path");
}

#[test]
fn only_the_default_place_gets_a_template() {
    let explicit =
        config::resolve_or_create(Some("nope.toml"), Platform::Unix, dirs(None, None, None))
            .expect("an explicit path needs no environment");
    assert!(matches!(explicit, ConfigSource::Explicit("nope.toml")));
    assert!(!explicit.creates_template(false));
    assert!(!explicit.creates_template(true));

    let default: ConfigSource<&str, u8> =
        config::resolve_or_create(None, Platform::Unix, dirs(None, Some("/h"), None)).unwrap();
    assert!(matches!(default, ConfigSource::Default(_)));
    assert!(default.creates_template(false));
    assert!(!default.creates_template(true));

    let none: Result<ConfigSource<&str, u8>, WatchError> =
        config::resolve_or_create(None, Platform::Unix, dirs(None, None, None));
    assert!(matches!(none, Err(WatchError::HomeUnset)));
}
