//! The command line, once it is parsed, and the log level that it asks for.

use vstd::prelude::*;
use vstd::string::*;

verus! {

/// The backend of triggers where neither the configuration nor the command line names one.
pub const DEFAULT_BACKEND_ID: &'static str = "mock-owo";

/// What the command line says. `A` is an argument of the wrapped command, `P` a path.
#[derive(Debug, Clone)]
pub struct Cli<A, P> {
    /// Where the configuration is.
    pub config: Option<P>,
    /// `host:port` of the daemon, over that of the configuration.
    pub host: Option<String>,
    /// The default backend, over that of the configuration.
    pub backend_id: Option<String>,
    /// How often `-v` was given.
    pub verbose: u8,
    /// Say nothing at all.
    pub quiet: bool,
    /// Match and log, but send nothing.
    pub dry_run: bool,
    /// Leave the banner out.
    pub no_banner: bool,
    /// The command to wrap, and its arguments.
    pub command: Vec<A>,
}

/// The log filter for `verbose` times `-v`, and `-q` or not.
pub open spec fn filter_for(verbose: u8, quiet: bool) -> Seq<char> {
    if quiet {
        "off"@
    } else {
        "smited_watch="@ + (if verbose == 0 {
            "info"@
        } else if verbose == 1 {
            "debug"@
        } else {
            "trace"@
        })
    }
}

/// The log filter for `verbose` times `-v`, and `-q` or not: `-q` wins, and only this program's
/// own lines are let through.
pub fn tracing_filter(verbose: u8, quiet: bool) -> (r: String)
    ensures
        r@ == filter_for(verbose, quiet),
{
    if quiet {
        return "off".to_owned();
    }
    let level = match verbose {
        0 => "info",
        1 => "debug",
        _ => "trace",
    };
    let mut r = "smited_watch=".to_owned();
    r.append(level);
    r
}

/// Quiet wins over any number of `-v`.
pub proof fn law_quiet_wins(verbose: u8)
    ensures
        filter_for(verbose, true) == "off"@,
{
}

/// Without quiet the level goes by how often `-v` was given, and only this program's own lines are
/// let through.
pub proof fn law_verbosity_picks_the_level(verbose: u8)
    ensures
        verbose == 0 ==> filter_for(verbose, false) == "smited_watch="@ + "info"@,
        verbose == 1 ==> filter_for(verbose, false) == "smited_watch="@ + "debug"@,
        verbose >= 2 ==> filter_for(verbose, false) == "smited_watch="@ + "trace"@,
{
}

} // verus!
