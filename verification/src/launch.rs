//! From the command line and the configuration to a run: which mode, which settings, what is said
//! at the start.

use std::sync::Arc;

use vstd::prelude::*;
use vstd::string::*;

use crate::cli::{tracing_filter, Cli, DEFAULT_BACKEND_ID};
use crate::client::TriggerClient;
use crate::config::{Config, SmitedSection};
use crate::text::str_eq;
use crate::time::Duration;
use crate::wrap::pipeline::debouncers_for;
use crate::wrap::WrapOptions;

verus! {

/// What the program does.
#[derive(Debug, Clone, Copy, PartialEq, Eq, Structural)]
pub enum Startup {
    /// There is no command: print the help and exit with this code.
    Help { exit_code: i32 },
    /// Run the command as if this program were not there.
    Passthrough,
    /// Wrap the command.
    Wrap,
}

/// What the program does for a command of `words` words, where `SMITED_WATCH_DISABLE` has the
/// value `disable`.
pub open spec fn startup_for(words: nat, disable: Option<Seq<char>>) -> Startup {
    if words == 0 {
        Startup::Help { exit_code: 2 }
    } else if disable == Some("1"@) {
        Startup::Passthrough
    } else {
        Startup::Wrap
    }
}

/// The characters of a borrowed string, where there is one.
pub open spec fn text_of(s: Option<&str>) -> Option<Seq<char>> {
    match s {
        Some(s) => Some(s@),
        None => None,
    }
}

/// The characters of an owned string, where there is one.
pub open spec fn owned_text(s: Option<String>) -> Option<Seq<char>> {
    match s {
        Some(s) => Some(s@),
        None => None,
    }
}

/// What the program does for `command`, where `SMITED_WATCH_DISABLE` has the value `disable`.
pub fn startup<A>(command: &Vec<A>, disable: Option<&str>) -> (r: Startup)
    ensures
        r == startup_for(command@.len(), text_of(disable)),
{
    if command.len() == 0 {
        return Startup::Help { exit_code: 2 };
    }
    match disable {
        Some(value) => if str_eq(value, "1") {
            Startup::Passthrough
        } else {
            Startup::Wrap
        },
        None => Startup::Wrap,
    }
}

/// The log filter: that of `RUST_LOG` where it is set, else that of the command line.
pub fn log_filter(rust_log: Option<String>, verbose: u8, quiet: bool) -> (r: String)
    ensures
        r@ == (match rust_log {
            Some(filter) => filter@,
            None => crate::cli::filter_for(verbose, quiet),
        }),
{
    match rust_log {
        Some(filter) => filter,
        None => tracing_filter(verbose, quiet),
    }
}

/// Where requests go.
#[derive(Debug, Clone)]
pub struct Settings {
    /// `host:port` of the daemon; without it nothing is sent.
    pub host: Option<String>,
    /// The backend of requests whose pattern names none.
    pub backend_id: String,
}

/// A [`Settings`] with its strings as character sequences.
pub struct SettingsView {
    pub host: Option<Seq<char>>,
    pub backend_id: Seq<char>,
}

impl View for Settings {
    type V = SettingsView;

    open spec fn view(&self) -> SettingsView {
        SettingsView { host: owned_text(self.host), backend_id: self.backend_id@ }
    }
}

/// `first` where it is given, else `second`.
pub open spec fn either<T>(first: Option<T>, second: Option<T>) -> Option<T> {
    if first is Some {
        first
    } else {
        second
    }
}

/// Where requests go: the command line is heard before the configuration, which is heard before
/// the default; `--dry-run` takes the host away.
pub open spec fn settings_for(
    cli_host: Option<Seq<char>>,
    cli_backend_id: Option<Seq<char>>,
    dry_run: bool,
    config_host: Option<Seq<char>>,
    config_backend_id: Option<Seq<char>>,
) -> SettingsView {
    SettingsView {
        host: if dry_run {
            None
        } else {
            either(cli_host, config_host)
        },
        backend_id: match either(cli_backend_id, config_backend_id) {
            Some(id) => id,
            None => "mock-owo"@,
        },
    }
}

/// `first` where it is given, else a copy of `second`.
fn first_given(first: &Option<String>, second: &Option<String>) -> (r: Option<String>)
    ensures
        owned_text(r) == either(owned_text(*first), owned_text(*second)),
{
    match first {
        Some(s) => Some(s.as_str().to_owned()),
        None => match second {
            Some(s) => Some(s.as_str().to_owned()),
            None => None,
        },
    }
}

/// Where requests go, for this command line and this configuration.
pub fn settings<A, P>(cli: &Cli<A, P>, smited: &SmitedSection) -> (r: Settings)
    ensures
        r@ == settings_for(
            owned_text(cli.host),
            owned_text(cli.backend_id),
            cli.dry_run,
            owned_text(smited.host),
            owned_text(smited.backend_id),
        ),
{
    let host = if cli.dry_run {
        None
    } else {
        first_given(&cli.host, &smited.host)
    };
    let backend_id = match first_given(&cli.backend_id, &smited.backend_id) {
        Some(id) => id,
        None => DEFAULT_BACKEND_ID.to_owned(),
    };
    Settings { host, backend_id }
}

/// `words` with single spaces in between.
pub open spec fn joined(words: Seq<Seq<char>>) -> Seq<char>
    decreases words.len(),
{
    if words.len() == 0 {
        Seq::empty()
    } else if words.len() == 1 {
        words[0]
    } else {
        joined(words.drop_last()) + " "@ + words.last()
    }
}

/// The line that says what is wrapped.
pub open spec fn banner_text(words: Seq<Seq<char>>, dry_run: bool) -> Seq<char> {
    "[smited-watch] wrapping "@ + joined(words) + (if dry_run {
        " (dry-run)"@
    } else {
        Seq::empty()
    })
}

/// The strings of a list as character sequences.
pub open spec fn words_of(words: Seq<String>) -> Seq<Seq<char>> {
    words.map_values(|w: String| w@)
}

/// The line that says that `cmd` is wrapped, and whether anything will be sent.
pub fn banner_line(cmd: &Vec<String>, dry_run: bool) -> (r: String)
    ensures
        r@ == banner_text(words_of(cmd@), dry_run),
{
    let mut r = "[smited-watch] wrapping ".to_owned();
    let ghost head = r@;
    let ghost words = words_of(cmd@);
    let mut i: usize = 0;
    assert(words.take(0) =~= Seq::empty());
    assert(r@ =~= head + joined(words.take(0)));
    while i < cmd.len()
        invariant
            i <= cmd@.len(),
            words == words_of(cmd@),
            r@ == head + joined(words.take(i as int)),
        decreases cmd@.len() - i,
    {
        let ghost next = words.take(i as int + 1);
        assert(next.drop_last() =~= words.take(i as int));
        assert(next.last() == cmd@[i as int]@);
        if i > 0 {
            r.append(" ");
        }
        r.append(cmd[i].as_str());
        assert(r@ =~= head + joined(next));
        i += 1;
    }
    assert(words.take(words.len() as int) =~= words);
    if dry_run {
        r.append(" (dry-run)");
    }
    assert(r@ =~= banner_text(words, dry_run));
    r
}

/// The banner, unless it or everything was asked to be left out.
pub fn banner(cmd: &Vec<String>, dry_run: bool, quiet: bool, no_banner: bool) -> (r: Option<String>)
    ensures
        owned_text(r) == (if quiet || no_banner {
            None
        } else {
            Some(banner_text(words_of(cmd@), dry_run))
        }),
{
    if !quiet && !no_banner {
        Some(banner_line(cmd, dry_run))
    } else {
        None
    }
}

/// The line that says that a configuration was written to `path`, unless none was or everything
/// was asked to be left out.
pub fn created_notice(path: &str, was_auto_created: bool, quiet: bool) -> (r: Option<String>)
    ensures
        owned_text(r) == (if !quiet && was_auto_created {
            Some(
                "[smited-watch] wrote default config template to "@ + path@
                    + " — edit it to add patterns"@,
            )
        } else {
            None
        }),
{
    if !quiet && was_auto_created {
        let mut r = "[smited-watch] wrote default config template to ".to_owned();
        r.append(path);
        r.append(" — edit it to add patterns");
        Some(r)
    } else {
        None
    }
}

/// All that a run needs, from the command line, the configuration and the settings.
pub fn build_wrap_options<A, P, C>(cli: Cli<A, P>, config: Config, settings: Settings) -> (r:
    WrapOptions<A, C>)
    ensures
        r.cmd == cli.command,
        r.patterns@ == config.patterns@,
        crate::wrap::pipeline::debounce_states(r.debouncers@)
            == crate::wrap::pipeline::fresh_debouncers(config.patterns@),
        r.trigger_client@.host == settings@.host,
        r.trigger_client@.strategy == config.smited.connection.strategy,
        r.trigger_client@.timeout.nanos == config.smited.connection.timeout_ms * 1_000_000,
        r.trigger_client@.channel is None,
        r.default_backend_id == settings.backend_id,
        r.on_exit == config.on_exit,
        !r.force_pipes,
{
    let debouncers = debouncers_for(&config.patterns);
    let timeout = Duration::from_millis(config.smited.connection.timeout_ms);
    let trigger_client = TriggerClient::new(
        settings.host,
        config.smited.connection.strategy,
        timeout,
    );
    WrapOptions {
        cmd: cli.command,
        patterns: Arc::new(config.patterns),
        debouncers,
        trigger_client,
        default_backend_id: settings.backend_id,
        on_exit: config.on_exit,
        force_pipes: false,
    }
}

/// The disabling variable has to be exactly `1`, and help comes before everything.
pub proof fn law_only_one_disables(words: nat, disable: Option<Seq<char>>)
    ensures
        startup_for(words, disable) is Passthrough <==> words > 0 && disable == Some("1"@),
        startup_for(words, disable) is Help <==> words == 0,
{
}

/// Nothing is sent exactly where `--dry-run` was given or nobody names a host.
pub proof fn law_dry_run_without_host(
    cli_host: Option<Seq<char>>,
    cli_backend_id: Option<Seq<char>>,
    dry_run: bool,
    config_host: Option<Seq<char>>,
    config_backend_id: Option<Seq<char>>,
)
    ensures
        settings_for(
            cli_host,
            cli_backend_id,
            dry_run,
            config_host,
            config_backend_id,
        ).host is None <==> dry_run || (cli_host is None && config_host is None),
{
}

/// What the command line names goes over what the configuration names.
pub proof fn law_command_line_wins(
    host: Seq<char>,
    backend_id: Seq<char>,
    config_host: Option<Seq<char>>,
    config_backend_id: Option<Seq<char>>,
)
    ensures
        settings_for(Some(host), Some(backend_id), false, config_host, config_backend_id) == (
        SettingsView { host: Some(host), backend_id }),
{
}

/// A command that is not disabled is wrapped, and help ends with exit code 2.
pub proof fn law_a_command_is_wrapped(words: nat, disable: Option<Seq<char>>)
    ensures
        words > 0 && disable != Some("1"@) ==> startup_for(words, disable) == Startup::Wrap,
        words == 0 ==> startup_for(words, disable) == (Startup::Help { exit_code: 2 }),
{
}

/// Each setting is that of the command line where it names one, else that of the configuration,
/// else the default, and neither hangs on the other. `--dry-run` leaves the backend alone.
pub proof fn law_settings_are_heard_in_order(
    cli_host: Option<Seq<char>>,
    cli_backend_id: Option<Seq<char>>,
    dry_run: bool,
    config_host: Option<Seq<char>>,
    config_backend_id: Option<Seq<char>>,
)
    ensures
        ({
            let s = settings_for(cli_host, cli_backend_id, dry_run, config_host, config_backend_id);
            &&& dry_run ==> s.host is None
            &&& !dry_run ==> (cli_host is Some ==> s.host == cli_host)
            &&& !dry_run ==> (cli_host is None ==> s.host == config_host)
            &&& cli_backend_id matches Some(id) ==> s.backend_id == id
            &&& cli_backend_id is None ==> (config_backend_id matches Some(id) ==> s.backend_id
                == id)
            &&& cli_backend_id is None && config_backend_id is None ==> s.backend_id == "mock-owo"@
        }),
{
}

/// What is known of an optional string is the string, and that there is none where there is none.
pub proof fn law_optional_strings_are_seen_whole(a: Option<&str>, b: Option<String>, s: Settings)
    ensures
        a is Some <==> text_of(a) is Some,
        a matches Some(x) ==> text_of(a) == Some(x@),
        b is Some <==> owned_text(b) is Some,
        b matches Some(x) ==> owned_text(b) == Some(x@),
        s@.host == owned_text(s.host),
        s@.backend_id == s.backend_id@,
{
}

/// Words are joined by single spaces: one more word comes behind a space, the first one alone.
pub proof fn law_words_are_joined_by_spaces(words: Seq<Seq<char>>, word: Seq<char>)
    ensures
        joined(Seq::empty()) == Seq::<char>::empty(),
        words.len() == 0 ==> joined(words.push(word)) == word,
        words.len() > 0 ==> joined(words.push(word)) == joined(words) + " "@ + word,
{
    assert(words.push(word).drop_last() =~= words);
}

/// The banner is the same with and without dry run, but for what says so at its end, and names the
/// words of the command as they are.
pub proof fn law_the_banner_names_the_command(words: Seq<String>)
    ensures
        banner_text(words_of(words), false) == "[smited-watch] wrapping "@ + joined(
            words_of(words),
        ),
        banner_text(words_of(words), true) == banner_text(words_of(words), false) + " (dry-run)"@,
        words_of(words).len() == words.len(),
        forall|i: int| 0 <= i < words.len() ==> #[trigger] words_of(words)[i] == words[i]@,
{
    assert(banner_text(words_of(words), false) =~= "[smited-watch] wrapping "@ + joined(
        words_of(words),
    ));
}

} // verus!
