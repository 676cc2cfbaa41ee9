//! The configuration: its schema, the defaults of what is left out, and what is refused.
//!
//! A parsed file arrives as a [`RawConfig`], in which everything optional may be missing. [`load`]
//! turns it into a [`Config`]: defaults filled in, each pattern's regex compiled, ranges checked.
//! The first fault is reported with the name of the pattern that has it.

use vstd::prelude::*;

use crate::error::{ErrorView, WatchError};
use crate::regexes::compile;
use crate::text::str_eq;

verus! {

/// A complete configuration.
#[derive(Debug, Clone)]
pub struct Config {
    pub smited: SmitedSection,
    pub patterns: Vec<Pattern>,
    pub on_exit: OnExit,
}

/// Where the daemon is and how to talk to it.
#[derive(Debug, Clone)]
pub struct SmitedSection {
    /// `host:port` of the daemon; without it nothing is ever sent.
    pub host: Option<String>,
    /// The backend of triggers whose pattern names none.
    pub backend_id: Option<String>,
    pub connection: Connection,
}

/// How a connection to the daemon is made and kept.
#[derive(Debug, Clone)]
pub struct Connection {
    /// The limit on each trigger, connecting and the call together, in milliseconds.
    pub timeout_ms: u64,
    pub strategy: ConnectionStrategy,
}

/// How long a connection to the daemon lives.
#[derive(Debug, Clone, Copy, PartialEq, Eq, Structural)]
pub enum ConnectionStrategy {
    /// One connection for the whole run, replaced after a failure.
    Persistent,
    /// A fresh connection for each trigger.
    PerTrigger,
}

/// A regex to look for in the output, and the sensation to fire where it matches.
#[derive(Debug, Clone)]
pub struct Pattern {
    pub name: String,
    pub regex: String,
    pub sensation: String,
    pub backend_id: Option<String>,
    pub debounce_ms: u64,
    pub intensity_scale: Option<u32>,
    pub priority: Option<i32>,
    /// The compiled `regex`, set by [`load`].
    pub compiled: Option<regex::Regex>,
}

/// What to fire when the wrapped command has finished.
#[derive(Debug, Clone)]
pub struct OnExit {
    pub success_sensation: String,
    pub failure_sensation: String,
    pub success_min_duration_ms: u64,
    pub failure_dedupe_window_ms: u64,
}

/// A configuration as it was written, before defaults and checks.
#[derive(Debug, Clone)]
pub struct RawConfig {
    pub smited: Option<RawSmited>,
    pub patterns: Option<Vec<RawPattern>>,
    pub on_exit: Option<RawOnExit>,
}

/// `[smited]` as it was written.
#[derive(Debug, Clone)]
pub struct RawSmited {
    pub host: Option<String>,
    pub backend_id: Option<String>,
    pub connection: Option<RawConnection>,
}

/// `[smited.connection]` as it was written.
#[derive(Debug, Clone)]
pub struct RawConnection {
    pub timeout_ms: Option<u64>,
    pub strategy: Option<String>,
}

/// One `[[patterns]]` entry as it was written.
#[derive(Debug, Clone)]
pub struct RawPattern {
    pub name: String,
    pub regex: String,
    pub sensation: String,
    pub backend_id: Option<String>,
    pub debounce_ms: Option<u64>,
    pub intensity_scale: Option<u32>,
    pub priority: Option<i32>,
}

/// `[on_exit]` as it was written.
#[derive(Debug, Clone)]
pub struct RawOnExit {
    pub success_sensation: Option<String>,
    pub failure_sensation: Option<String>,
    pub success_min_duration_ms: Option<u64>,
    pub failure_dedupe_window_ms: Option<u64>,
}

/// `[smited.connection] timeout_ms` where it is left out.
pub fn default_timeout_ms() -> (r: u64)
    ensures
        r == 500,
{
    500
}

/// `[[patterns]] debounce_ms` where it is left out.
pub fn default_debounce_ms() -> (r: u64)
    ensures
        r == 500,
{
    500
}

/// `[on_exit] success_min_duration_ms` where it is left out.
pub fn default_success_min_duration_ms() -> (r: u64)
    ensures
        r == 30_000,
{
    30_000
}

/// `[on_exit] failure_dedupe_window_ms` where it is left out.
pub fn default_failure_dedupe_window_ms() -> (r: u64)
    ensures
        r == 2_000,
{
    2_000
}

impl Default for ConnectionStrategy {
    fn default() -> (r: Self)
        ensures
            r == ConnectionStrategy::Persistent,
    {
        ConnectionStrategy::Persistent
    }
}

impl Default for Connection {
    fn default() -> (r: Self)
        ensures
            r.timeout_ms == 500,
            r.strategy == ConnectionStrategy::Persistent,
    {
        Connection { timeout_ms: default_timeout_ms(), strategy: ConnectionStrategy::Persistent }
    }
}

impl Default for SmitedSection {
    fn default() -> (r: Self)
        ensures
            r.host is None,
            r.backend_id is None,
            r.connection.timeout_ms == 500,
            r.connection.strategy == ConnectionStrategy::Persistent,
    {
        SmitedSection {
            host: None,
            backend_id: None,
            connection: Connection {
                timeout_ms: default_timeout_ms(),
                strategy: ConnectionStrategy::Persistent,
            },
        }
    }
}

impl Default for OnExit {
    fn default() -> (r: Self)
        ensures
            r.success_sensation@ == Seq::<char>::empty(),
            r.failure_sensation@ == Seq::<char>::empty(),
            r.success_min_duration_ms == 30_000,
            r.failure_dedupe_window_ms == 2_000,
    {
        OnExit {
            success_sensation: String::new(),
            failure_sensation: String::new(),
            success_min_duration_ms: default_success_min_duration_ms(),
            failure_dedupe_window_ms: default_failure_dedupe_window_ms(),
        }
    }
}

/// The strategy that a name stands for.
pub open spec fn strategy_named(name: Seq<char>) -> Option<ConnectionStrategy> {
    if name == "persistent"@ {
        Some(ConnectionStrategy::Persistent)
    } else if name == "per_trigger"@ {
        Some(ConnectionStrategy::PerTrigger)
    } else {
        None
    }
}

impl ConnectionStrategy {
    /// The strategy that `name` stands for.
    pub fn parse(name: &str) -> (r: Option<ConnectionStrategy>)
        ensures
            r == strategy_named(name@),
    {
        if str_eq(name, "persistent") {
            Some(ConnectionStrategy::Persistent)
        } else if str_eq(name, "per_trigger") {
            Some(ConnectionStrategy::PerTrigger)
        } else {
            None
        }
    }
}

/// What is wrong with `p`, if anything: its regex, else its intensity, else its priority.
pub open spec fn pattern_fault(p: RawPattern) -> Option<ErrorView> {
    match crate::regexes::pattern_error(p.regex@) {
        Some(reason) => Some(
            ErrorView::InvalidRegex { name: p.name@, regex: p.regex@, reason },
        ),
        None => match (p.intensity_scale, p.priority) {
            (Some(scale), _) if scale > 100 => Some(
                ErrorView::IntensityOutOfRange { name: p.name@, intensity_scale: scale },
            ),
            (_, Some(priority)) if priority < -1000 || priority > 1000 => Some(
                ErrorView::PriorityOutOfRange { name: p.name@, priority },
            ),
            _ => None,
        },
    }
}

/// What is wrong with the first faulty entry of `ps`.
pub open spec fn patterns_fault(ps: Seq<RawPattern>) -> Option<ErrorView>
    decreases ps.len(),
{
    if ps.len() == 0 {
        None
    } else {
        match pattern_fault(ps[0]) {
            Some(e) => Some(e),
            None => patterns_fault(ps.skip(1)),
        }
    }
}

/// The name that `raw` gives its strategy.
pub open spec fn written_strategy(raw: RawConfig) -> Option<String> {
    match raw.smited {
        Some(RawSmited { connection: Some(c), .. }) => c.strategy,
        _ => None,
    }
}

/// The pattern entries of `raw`.
pub open spec fn written_patterns(raw: RawConfig) -> Seq<RawPattern> {
    match raw.patterns {
        Some(ps) => ps@,
        None => Seq::empty(),
    }
}

/// What is wrong with `raw`, if anything: the strategy's name, else the first faulty pattern.
pub open spec fn config_fault(raw: RawConfig) -> Option<ErrorView> {
    match written_strategy(raw) {
        Some(s) if strategy_named(s@) is None => Some(ErrorView::UnknownStrategy { value: s@ }),
        _ => patterns_fault(written_patterns(raw)),
    }
}

/// Whether `p` is the complete form of `raw`: what was written, `debounce_ms` filled in, the regex
/// compiled.
pub open spec fn completes(raw: RawPattern, p: Pattern) -> bool {
    &&& p.name == raw.name
    &&& p.regex == raw.regex
    &&& p.sensation == raw.sensation
    &&& p.backend_id == raw.backend_id
    &&& p.debounce_ms == (match raw.debounce_ms {
        Some(ms) => ms,
        None => 500,
    })
    &&& p.intensity_scale == raw.intensity_scale
    &&& p.priority == raw.priority
    &&& p.compiled is Some
    &&& crate::regexes::regex_pattern(p.compiled->0) == raw.regex@
}

/// Whether `s` is the complete form of `raw`.
pub open spec fn completes_smited(raw: Option<RawSmited>, s: SmitedSection) -> bool {
    let connection = match raw {
        Some(section) => section.connection,
        None => None,
    };
    &&& s.host == (match raw {
        Some(section) => section.host,
        None => None,
    })
    &&& s.backend_id == (match raw {
        Some(section) => section.backend_id,
        None => None,
    })
    &&& s.connection.timeout_ms == (match connection {
        Some(RawConnection { timeout_ms: Some(ms), .. }) => ms,
        _ => 500,
    })
    &&& Some(s.connection.strategy) == (match connection {
        Some(RawConnection { strategy: Some(name), .. }) => strategy_named(name@),
        _ => Some(ConnectionStrategy::Persistent),
    })
}

/// Whether `e` is the complete form of `raw`.
pub open spec fn completes_on_exit(raw: Option<RawOnExit>, e: OnExit) -> bool {
    &&& e.success_sensation@ == (match raw {
        Some(RawOnExit { success_sensation: Some(s), .. }) => s@,
        _ => Seq::empty(),
    })
    &&& e.failure_sensation@ == (match raw {
        Some(RawOnExit { failure_sensation: Some(s), .. }) => s@,
        _ => Seq::empty(),
    })
    &&& e.success_min_duration_ms == (match raw {
        Some(RawOnExit { success_min_duration_ms: Some(ms), .. }) => ms,
        _ => 30_000,
    })
    &&& e.failure_dedupe_window_ms == (match raw {
        Some(RawOnExit { failure_dedupe_window_ms: Some(ms), .. }) => ms,
        _ => 2_000,
    })
}

/// Check and complete one pattern.
fn load_pattern(raw: RawPattern) -> (r: Result<Pattern, WatchError>)
    ensures
        match r {
            Ok(p) => pattern_fault(raw) is None && completes(raw, p),
            Err(e) => pattern_fault(raw) == Some(e@),
        },
{
    let compiled = match compile(raw.regex.as_str()) {
        Ok(re) => re,
        Err(reason) => {
            return Err(
                WatchError::InvalidRegex { name: raw.name, regex: raw.regex, reason },
            );
        },
    };
    if let Some(scale) = raw.intensity_scale {
        if scale > 100 {
            return Err(
                WatchError::IntensityOutOfRange { name: raw.name, intensity_scale: scale },
            );
        }
    }
    if let Some(priority) = raw.priority {
        if priority < -1000 || priority > 1000 {
            return Err(WatchError::PriorityOutOfRange { name: raw.name, priority });
        }
    }
    Ok(
        Pattern {
            name: raw.name,
            regex: raw.regex,
            sensation: raw.sensation,
            backend_id: raw.backend_id,
            debounce_ms: match raw.debounce_ms {
                Some(ms) => ms,
                None => default_debounce_ms(),
            },
            intensity_scale: raw.intensity_scale,
            priority: raw.priority,
            compiled: Some(compiled),
        },
    )
}

/// Complete `[smited]`.
fn load_smited(raw: Option<RawSmited>) -> (r: Result<SmitedSection, WatchError>)
    ensures
        match r {
            Ok(s) => completes_smited(raw, s),
            Err(e) => raw matches Some(RawSmited {
                connection: Some(RawConnection { strategy: Some(name), .. }),
                ..
            }) && strategy_named(name@) is None && e@ == (ErrorView::UnknownStrategy {
                value: name@,
            }),
        },
{
    let section = match raw {
        Some(section) => section,
        None => {
            return Ok(SmitedSection::default());
        },
    };
    let connection = match section.connection {
        Some(written) => {
            let strategy = match written.strategy {
                Some(name) => match ConnectionStrategy::parse(name.as_str()) {
                    Some(strategy) => strategy,
                    None => {
                        return Err(WatchError::UnknownStrategy { value: name });
                    },
                },
                None => ConnectionStrategy::default(),
            };
            let timeout_ms: u64 = match written.timeout_ms {
                Some(ms) => ms,
                None => default_timeout_ms(),
            };
            Connection { timeout_ms, strategy }
        },
        None => Connection::default(),
    };
    Ok(SmitedSection { host: section.host, backend_id: section.backend_id, connection })
}

/// Complete `[on_exit]`.
fn load_on_exit(raw: Option<RawOnExit>) -> (r: OnExit)
    ensures
        completes_on_exit(raw, r),
{
    match raw {
        Some(written) => OnExit {
            success_sensation: match written.success_sensation {
                Some(s) => s,
                None => String::new(),
            },
            failure_sensation: match written.failure_sensation {
                Some(s) => s,
                None => String::new(),
            },
            success_min_duration_ms: match written.success_min_duration_ms {
                Some(ms) => ms,
                None => default_success_min_duration_ms(),
            },
            failure_dedupe_window_ms: match written.failure_dedupe_window_ms {
                Some(ms) => ms,
                None => default_failure_dedupe_window_ms(),
            },
        },
        None => OnExit::default(),
    }
}

/// The first fault of a list lies behind a faultless prefix.
proof fn lemma_patterns_fault(ps: Seq<RawPattern>, n: int)
    requires
        0 <= n <= ps.len(),
        forall|i: int| 0 <= i < n ==> pattern_fault(#[trigger] ps[i]) is None,
    ensures
        n == ps.len() ==> patterns_fault(ps) is None,
        n < ps.len() && pattern_fault(ps[n]) is Some ==> patterns_fault(ps) == pattern_fault(ps[n]),
    decreases ps.len(),
{
    if ps.len() > 0 && n > 0 {
        assert(pattern_fault(ps[0]) is None);
        let rest = ps.skip(1);
        assert forall|i: int| 0 <= i < n - 1 implies pattern_fault(#[trigger] rest[i]) is None by {
            assert(rest[i] == ps[i + 1]);
        }
        lemma_patterns_fault(rest, n - 1);
        if n < ps.len() {
            assert(rest[n - 1] == ps[n]);
        }
    }
}

/// Complete and check a configuration.
///
/// Where something is wrong, the error is that of the strategy, else that of the first pattern
/// that has a fault; it carries the pattern's name.
pub fn load(raw: RawConfig) -> (r: Result<Config, WatchError>)
    ensures
        match r {
            Ok(cfg) => {
                &&& config_fault(raw) is None
                &&& completes_smited(raw.smited, cfg.smited)
                &&& cfg.patterns@.len() == written_patterns(raw).len()
                &&& forall|i: int|
                    0 <= i < cfg.patterns@.len() ==> completes(
                        written_patterns(raw)[i],
                        #[trigger] cfg.patterns@[i],
                    )
                &&& completes_on_exit(raw.on_exit, cfg.on_exit)
            },
            Err(e) => config_fault(raw) == Some(e@),
        },
{
    let ghost written = written_patterns(raw);
    let smited = match load_smited(raw.smited) {
        Ok(s) => s,
        Err(e) => {
            return Err(e);
        },
    };
    let mut patterns: Vec<Pattern> = Vec::new();
    if let Some(entries) = raw.patterns {
        for p in it: entries
            invariant
                it.seq() == written,
                patterns@.len() == it.index(),
                forall|i: int| 0 <= i < it.index() ==> pattern_fault(#[trigger] written[i]) is None,
                forall|i: int|
                    0 <= i < patterns@.len() ==> completes(written[i], #[trigger] patterns@[i]),
                written == written_patterns(raw),
                patterns_fault(written) == config_fault(raw),
        {
            match load_pattern(p) {
                Ok(done) => patterns.push(done),
                Err(e) => {
                    proof {
                        lemma_patterns_fault(written, it.index() as int);
                    }
                    return Err(e);
                },
            }
        }
    }
    proof {
        lemma_patterns_fault(written, written.len() as int);
    }
    let on_exit = load_on_exit(raw.on_exit);
    Ok(Config { smited, patterns, on_exit })
}

/// A list without a fault has none in any entry.
proof fn lemma_no_fault(ps: Seq<RawPattern>, i: int)
    requires
        patterns_fault(ps) is None,
        0 <= i < ps.len(),
    ensures
        pattern_fault(ps[i]) is None,
    decreases ps.len(),
{
    if i > 0 {
        lemma_no_fault(ps.skip(1), i - 1);
        assert(ps.skip(1)[i - 1] == ps[i]);
    }
}

/// What is accepted is sound throughout: every regex compiles, every intensity and every priority
/// lies in its range, and the strategy, where one is named, is known.
pub proof fn law_accepted_is_sound(raw: RawConfig, i: int)
    requires
        config_fault(raw) is None,
        0 <= i < written_patterns(raw).len(),
    ensures
        ({
            let p = written_patterns(raw)[i];
            &&& crate::regexes::pattern_error(p.regex@) is None
            &&& p.intensity_scale matches Some(scale) ==> scale <= 100
            &&& p.priority matches Some(priority) ==> -1000 <= priority <= 1000
            &&& written_strategy(raw) matches Some(s) ==> strategy_named(s@) is Some
        }),
{
    lemma_no_fault(written_patterns(raw), i);
}

/// What is accepted can be scanned for, unless its patterns do not compile together: no scanner
/// finds fault with a single one of them.
pub proof fn law_accepted_can_be_scanned(raw: RawConfig, patterns: Seq<Pattern>)
    requires
        config_fault(raw) is None,
        patterns.len() == written_patterns(raw).len(),
        forall|i: int|
            0 <= i < patterns.len() ==> completes(written_patterns(raw)[i], #[trigger] patterns[i]),
    ensures
        crate::scan::first_bad_regex(patterns) is None,
        crate::scan::scanner_fault(patterns) is Some ==> crate::scan::scanner_fault(
            patterns,
        )->0 is RegexSet,
{
    assert forall|i: int| 0 <= i < patterns.len() implies crate::regexes::pattern_error(
        (#[trigger] patterns[i]).regex@,
    ) is None by {
        law_accepted_is_sound(raw, i);
        assert(completes(written_patterns(raw)[i], patterns[i]));
    }
    crate::scan::lemma_first_bad_regex(patterns, patterns.len() as int);
}

/// The configuration that is written where there is none yet: every setting, explained.
pub const TEMPLATE: &'static str = "# smited-watch configuration.
#
# Everything here is optional. What is left out has the default given next to it.

# --- The daemon ------------------------------------------------------------

[smited]
# host:port of the daemon. While it is unset nothing is sent: matches are only
# logged (dry-run mode).
# host = \"windows-rig.local:7777\"

# The backend of every trigger whose pattern names none.
backend_id = \"mock-owo\"

[smited.connection]
# Limit on each trigger, connecting and the call together, in milliseconds.
# Default 500.
timeout_ms = 500
# \"persistent\" keeps one connection open, \"per_trigger\" opens one each time.
strategy = \"persistent\"

# --- Patterns --------------------------------------------------------------
#
# Each line of the command's output is matched against every pattern, without
# its colour codes. Rust `regex` syntax. A pattern has
#
#   name             required; stands in logs and in trace ids
#   regex            required
#   sensation        required; has to be registered on the backend
#   backend_id       default: the one under [smited]
#   debounce_ms      default 500; matches within the window are dropped, 0 = none
#   intensity_scale  0..100; default: that of the sensation
#   priority         -1000..1000; default 0

[[patterns]]
name = \"tsc_error\"
regex = 'error TS\\d+'
sensation = \"compile_error_mild\"
debounce_ms = 500

[[patterns]]
name = \"vite_error\"
regex = '\\[vite\\].*error'
sensation = \"compile_error_severe\"
debounce_ms = 1000

[[patterns]]
name = \"cargo_compile_error\"
regex = '^error(\\[E\\d+\\])?:'
sensation = \"compile_error_mild\"
debounce_ms = 500

[[patterns]]
name = \"generic_test_failure\"
regex = '(?i)\\b(\\d+)\\s+(failed|failing)\\b'
sensation = \"test_failed\"
debounce_ms = 2000

# --- When the command has ended --------------------------------------------

[on_exit]
# Fired on exit code 0. Empty: nothing is fired.
success_sensation = \"\"
# Fired on any other exit. Empty: nothing is fired.
failure_sensation = \"\"
# A success counts only if the command ran at least this long. Default 30000.
success_min_duration_ms = 30000
# A failure is not told again if a pattern fired less than this before.
# Default 2000.
failure_dedupe_window_ms = 2000
";

/// What kind of system the program runs on, as far as the place of the configuration goes.
#[derive(Debug, Clone, Copy, PartialEq, Eq, Structural)]
pub enum Platform {
    /// Linux, macOS and the like.
    Unix,
    Windows,
    Other,
}

/// The directories that the environment names, in the units that the system's strings are made
/// of.
#[derive(Debug, Clone)]
pub struct EnvDirs<T> {
    /// `XDG_CONFIG_HOME`
    pub xdg_config_home: Option<Vec<T>>,
    /// `HOME`
    pub home: Option<Vec<T>>,
    /// `APPDATA`
    pub app_data: Option<Vec<T>>,
}

/// A path: a directory, and the names to go down from it.
#[derive(Debug, Clone)]
pub struct ConfigPath<T> {
    pub base: Vec<T>,
    pub below: Vec<&'static str>,
}

/// A [`ConfigPath`] as sequences.
pub struct PathView<T> {
    pub base: Seq<T>,
    pub below: Seq<Seq<char>>,
}

impl<T> View for ConfigPath<T> {
    type V = PathView<T>;

    open spec fn view(&self) -> PathView<T> {
        PathView { base: self.base@, below: self.below@.map_values(|name: &'static str| name@) }
    }
}

/// The path of the configuration where the user names none.
pub open spec fn default_path<T>(platform: Platform, dirs: EnvDirs<T>) -> Result<
    PathView<T>,
    ErrorView,
> {
    let tail = seq!["smited"@, "watch.toml"@];
    match platform {
        Platform::Unix => match (dirs.xdg_config_home, dirs.home) {
            (Some(xdg), _) if xdg@.len() > 0 => Ok(PathView { base: xdg@, below: tail }),
            (_, Some(home)) => Ok(PathView { base: home@, below: seq![".config"@] + tail }),
            _ => Err(ErrorView::HomeUnset),
        },
        Platform::Windows => match dirs.app_data {
            Some(app_data) => Ok(PathView { base: app_data@, below: tail }),
            None => Err(ErrorView::AppDataUnset),
        },
        Platform::Other => Err(ErrorView::UnsupportedPlatform),
    }
}

/// The names `smited` and `watch.toml`, behind `.config` where `hidden` says so.
fn names_below(hidden: bool) -> (r: Vec<&'static str>)
    ensures
        r@.map_values(|name: &'static str| name@) == (if hidden {
            seq![".config"@]
        } else {
            Seq::empty()
        }) + seq!["smited"@, "watch.toml"@],
{
    let mut r: Vec<&'static str> = Vec::new();
    if hidden {
        r.push(".config");
    }
    r.push("smited");
    r.push("watch.toml");
    assert(r@.map_values(|name: &'static str| name@) =~= (if hidden {
        seq![".config"@]
    } else {
        Seq::empty()
    }) + seq!["smited"@, "watch.toml"@]);
    r
}

/// The path of the configuration where the user names none: under `$XDG_CONFIG_HOME`, or under
/// `.config` in `$HOME` where that is unset or empty; on Windows under `%APPDATA%`.
pub fn default_config_path<T>(platform: Platform, dirs: EnvDirs<T>) -> (r: Result<
    ConfigPath<T>,
    WatchError,
>)
    ensures
        match r {
            Ok(path) => default_path(platform, dirs) == Ok::<PathView<T>, ErrorView>(path@),
            Err(e) => default_path(platform, dirs) == Err::<PathView<T>, ErrorView>(e@),
        },
{
    assert(Seq::<Seq<char>>::empty() + seq!["smited"@, "watch.toml"@] =~= seq![
        "smited"@,
        "watch.toml"@,
    ]);
    match platform {
        Platform::Unix => {
            if let Some(xdg) = dirs.xdg_config_home {
                if xdg.len() > 0 {
                    return Ok(ConfigPath { base: xdg, below: names_below(false) });
                }
            }
            match dirs.home {
                Some(home) => Ok(ConfigPath { base: home, below: names_below(true) }),
                None => Err(WatchError::HomeUnset),
            }
        },
        Platform::Windows => match dirs.app_data {
            Some(app_data) => Ok(ConfigPath { base: app_data, below: names_below(false) }),
            None => Err(WatchError::AppDataUnset),
        },
        Platform::Other => Err(WatchError::UnsupportedPlatform),
    }
}

/// Where the configuration is read from. `P` is a path that the user named.
#[derive(Debug, Clone)]
pub enum ConfigSource<P, T> {
    Explicit(P),
    Default(ConfigPath<T>),
}

impl<P, T> ConfigSource<P, T> {
    /// Whether the template is to be written there first, given whether there is something: at
    /// the default place where there is nothing yet, never at a place that the user named.
    pub open spec fn wants_template(self, exists: bool) -> bool {
        self is Default && !exists
    }

    /// Whether the template is to be written there first, given whether there is something.
    pub fn creates_template(&self, exists: bool) -> (r: bool)
        ensures
            r == self.wants_template(exists),
    {
        match self {
            ConfigSource::Explicit(_) => false,
            ConfigSource::Default(_) => !exists,
        }
    }
}

/// Where the configuration is read from: where the user says, else the default place. That the
/// default place cannot be told matters only where the user says nothing.
pub fn resolve_or_create<P, T>(explicit: Option<P>, platform: Platform, dirs: EnvDirs<T>) -> (r:
    Result<ConfigSource<P, T>, WatchError>)
    ensures
        match explicit {
            Some(path) => r == Ok::<ConfigSource<P, T>, WatchError>(ConfigSource::Explicit(path)),
            None => match r {
                Ok(source) => source matches ConfigSource::Default(path) && default_path(
                    platform,
                    dirs,
                ) == Ok::<PathView<T>, ErrorView>(path@),
                Err(e) => default_path(platform, dirs) == Err::<PathView<T>, ErrorView>(e@),
            },
        },
{
    match explicit {
        Some(path) => Ok(ConfigSource::Explicit(path)),
        None => match default_config_path(platform, dirs) {
            Ok(path) => Ok(ConfigSource::Default(path)),
            Err(e) => Err(e),
        },
    }
}

/// Nothing is ever written over, and nothing is written at a place that the user named; at the
/// default place something is, where there is nothing.
pub proof fn law_template_overwrites_nothing<P, T>(source: ConfigSource<P, T>, exists: bool)
    ensures
        exists ==> !source.wants_template(exists),
        source is Explicit ==> !source.wants_template(exists),
        source is Default && !exists ==> source.wants_template(exists),
{
}

/// An empty `XDG_CONFIG_HOME` is as good as none.
pub proof fn law_empty_xdg_is_unset<T>(dirs: EnvDirs<T>)
    requires
        dirs.xdg_config_home matches Some(xdg) && xdg@.len() == 0,
    ensures
        default_path(Platform::Unix, dirs) == default_path(
            Platform::Unix,
            EnvDirs { xdg_config_home: None, ..dirs },
        ),
{
}

/// A strategy has one name each, and no other name is one.
pub proof fn law_strategies_have_names(name: Seq<char>)
    ensures
        strategy_named(name) == Some(ConnectionStrategy::Persistent) <==> name == "persistent"@,
        strategy_named(name) == Some(ConnectionStrategy::PerTrigger) <==> name == "per_trigger"@,
        strategy_named(name) is None <==> name != "persistent"@ && name != "per_trigger"@,
{
    reveal_strlit("persistent");
    reveal_strlit("per_trigger");
    assert("persistent"@.len() != "per_trigger"@.len());
}

/// A pattern is at fault exactly where its regex does not compile, its intensity is over 100 or its
/// priority outside of -1000 to 1000, and what is said is the first of these, with its name.
pub proof fn law_what_is_wrong_with_a_pattern(p: RawPattern)
    ensures
        pattern_fault(p) is None <==> {
            &&& crate::regexes::pattern_error(p.regex@) is None
            &&& p.intensity_scale matches Some(scale) ==> scale <= 100
            &&& p.priority matches Some(priority) ==> -1000 <= priority <= 1000
        },
        crate::regexes::pattern_error(p.regex@) matches Some(reason) ==> pattern_fault(p) == Some(
            ErrorView::InvalidRegex { name: p.name@, regex: p.regex@, reason },
        ),
        crate::regexes::pattern_error(p.regex@) is None ==> (p.intensity_scale matches Some(scale)
            ==> scale > 100 ==> pattern_fault(p) == Some(
            ErrorView::IntensityOutOfRange { name: p.name@, intensity_scale: scale },
        )),
        crate::regexes::pattern_error(p.regex@) is None && (p.intensity_scale matches Some(scale)
            ==> scale <= 100) ==> (p.priority matches Some(priority) ==> (priority < -1000 || priority
            > 1000) ==> pattern_fault(p) == Some(
            ErrorView::PriorityOutOfRange { name: p.name@, priority },
        )),
{
}

/// Of several patterns the first one at fault is reported, wherever it stands and whatever stands
/// behind it; without one there is nothing to report.
pub proof fn law_the_first_fault_is_reported(front: Seq<RawPattern>, rest: Seq<RawPattern>)
    requires
        forall|i: int| 0 <= i < front.len() ==> pattern_fault(#[trigger] front[i]) is None,
    ensures
        patterns_fault(front) is None,
        rest.len() > 0 && pattern_fault(rest[0]) is Some ==> patterns_fault(front + rest)
            == pattern_fault(rest[0]),
{
    let all = front + rest;
    let n = front.len() as int;
    lemma_patterns_fault(front, n);
    assert forall|i: int| 0 <= i < n implies pattern_fault(#[trigger] all[i]) is None by {
        assert(all[i] == front[i]);
    }
    lemma_patterns_fault(all, n);
    if rest.len() > 0 {
        assert(all[n] == rest[0]);
    }
}

/// A file is refused for a strategy that has no such name first, and else for its patterns alone,
/// which are all that it lists.
pub proof fn law_what_is_wrong_with_a_file(raw: RawConfig)
    ensures
        raw.smited matches Some(smited) ==> smited.connection matches Some(connection)
            ==> connection.strategy matches Some(name) ==> name@ != "persistent"@ && name@
            != "per_trigger"@ ==> config_fault(raw) == Some(
            ErrorView::UnknownStrategy { value: name@ },
        ),
        (raw.smited matches Some(smited) ==> smited.connection matches Some(connection)
            ==> connection.strategy matches Some(name) ==> name@ == "persistent"@ || name@
            == "per_trigger"@) ==> config_fault(raw) == (match raw.patterns {
            Some(patterns) => patterns_fault(patterns@),
            None => None,
        }),
{
}

/// A complete pattern is what was written: nothing is changed, only a missing `debounce_ms` is 500,
/// and the compiled regex is the written one.
pub proof fn law_a_loaded_pattern_is_the_written_one(raw: RawPattern, p: Pattern)
    requires
        completes(raw, p),
    ensures
        p.name@ == raw.name@,
        p.regex@ == raw.regex@,
        p.sensation@ == raw.sensation@,
        p.backend_id == raw.backend_id,
        raw.debounce_ms matches Some(ms) ==> p.debounce_ms == ms,
        raw.debounce_ms is None ==> p.debounce_ms == 500,
        p.intensity_scale == raw.intensity_scale,
        p.priority == raw.priority,
        p.compiled matches Some(re) && crate::regexes::regex_pattern(re) == raw.regex@,
{
}

/// The complete `[smited]` is what was written, with a limit of 500 ms and one kept connection
/// where nothing is said.
pub proof fn law_a_loaded_connection_is_the_written_one(raw: RawSmited, s: SmitedSection)
    requires
        completes_smited(Some(raw), s),
    ensures
        s.host == raw.host,
        s.backend_id == raw.backend_id,
        raw.connection is None ==> s.connection.timeout_ms == 500 && s.connection.strategy
            == ConnectionStrategy::Persistent,
        raw.connection matches Some(c) ==> {
            &&& c.timeout_ms matches Some(ms) ==> s.connection.timeout_ms == ms
            &&& c.timeout_ms is None ==> s.connection.timeout_ms == 500
            &&& c.strategy is None ==> s.connection.strategy == ConnectionStrategy::Persistent
            &&& c.strategy matches Some(name) ==> (s.connection.strategy
                == ConnectionStrategy::PerTrigger <==> name@ == "per_trigger"@)
        },
{
    reveal_strlit("persistent");
    reveal_strlit("per_trigger");
    assert("persistent"@.len() != "per_trigger"@.len());
}

/// Without a section everything has its default.
pub proof fn law_a_missing_section_is_the_default(s: SmitedSection, e: OnExit)
    requires
        completes_smited(None, s),
        completes_on_exit(None, e),
    ensures
        s.host is None,
        s.backend_id is None,
        s.connection.timeout_ms == 500,
        s.connection.strategy == ConnectionStrategy::Persistent,
        e.success_sensation@.len() == 0,
        e.failure_sensation@.len() == 0,
        e.success_min_duration_ms == 30_000,
        e.failure_dedupe_window_ms == 2_000,
{
}

/// The complete `[on_exit]` is what was written, each missing value its default.
pub proof fn law_a_loaded_exit_is_the_written_one(raw: RawOnExit, e: OnExit)
    requires
        completes_on_exit(Some(raw), e),
    ensures
        raw.success_sensation matches Some(s) ==> e.success_sensation@ == s@,
        raw.success_sensation is None ==> e.success_sensation@.len() == 0,
        raw.failure_sensation matches Some(s) ==> e.failure_sensation@ == s@,
        raw.failure_sensation is None ==> e.failure_sensation@.len() == 0,
        raw.success_min_duration_ms matches Some(ms) ==> e.success_min_duration_ms == ms,
        raw.success_min_duration_ms is None ==> e.success_min_duration_ms == 30_000,
        raw.failure_dedupe_window_ms matches Some(ms) ==> e.failure_dedupe_window_ms == ms,
        raw.failure_dedupe_window_ms is None ==> e.failure_dedupe_window_ms == 2_000,
{
}

/// The default path lies under the first directory that the environment names for it, always under
/// the same names.
pub proof fn law_where_the_file_lives<T>(dirs: EnvDirs<T>)
    ensures
        dirs.xdg_config_home matches Some(xdg) ==> xdg@.len() > 0 ==> default_path(
            Platform::Unix,
            dirs,
        ) == Ok::<PathView<T>, ErrorView>(
            PathView { base: xdg@, below: seq!["smited"@, "watch.toml"@] },
        ),
        (dirs.xdg_config_home matches Some(xdg) ==> xdg@.len() == 0) ==> match dirs.home {
            Some(home) => default_path(Platform::Unix, dirs) matches Ok(path) && path.base == home@
                && path.below == seq![".config"@, "smited"@, "watch.toml"@],
            None => default_path(Platform::Unix, dirs) == Err::<PathView<T>, ErrorView>(
                ErrorView::HomeUnset,
            ),
        },
        dirs.app_data matches Some(dir) ==> default_path(Platform::Windows, dirs) == Ok::<
            PathView<T>,
            ErrorView,
        >(PathView { base: dir@, below: seq!["smited"@, "watch.toml"@] }),
        dirs.app_data is None ==> default_path(Platform::Windows, dirs) == Err::<
            PathView<T>,
            ErrorView,
        >(ErrorView::AppDataUnset),
        default_path(Platform::Other, dirs) == Err::<PathView<T>, ErrorView>(
            ErrorView::UnsupportedPlatform,
        ),
{
    assert(seq![".config"@] + seq!["smited"@, "watch.toml"@] =~= seq![
        ".config"@,
        "smited"@,
        "watch.toml"@,
    ]);
}

/// What is known of a path are its directory and its names, one by one.
pub proof fn law_a_path_is_seen_whole<T>(path: ConfigPath<T>)
    ensures
        path@.base == path.base@,
        path@.below.len() == path.below@.len(),
        forall|i: int|
            0 <= i < path.below@.len() ==> #[trigger] path@.below[i] == path.below@[i]@,
{
}

/// The patterns of a file are those that it lists, all of them and in order, and its strategy is
/// the one that it names.
pub proof fn law_everything_written_is_read(raw: RawConfig)
    ensures
        raw.patterns matches Some(patterns) ==> written_patterns(raw) == patterns@,
        raw.patterns is None ==> written_patterns(raw).len() == 0,
        raw.smited is None ==> written_strategy(raw) is None,
        raw.smited matches Some(smited) ==> {
            &&& smited.connection is None ==> written_strategy(raw) is None
            &&& smited.connection matches Some(connection) ==> written_strategy(raw)
                == connection.strategy
        },
{
}

} // verus!
