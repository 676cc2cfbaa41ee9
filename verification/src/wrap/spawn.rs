//! How the wrapped command is started: on a pseudo terminal of its own, or on pipes.

use vstd::prelude::*;
use vstd::string::*;

use crate::error::WatchError;

verus! {

/// The rows of a terminal that cannot be asked for them.
pub const DEFAULT_ROWS: u16 = 24;

/// The columns of a terminal that cannot be asked for them.
pub const DEFAULT_COLS: u16 = 80;

/// How to start a command. `A` is an argument.
#[derive(Debug, Clone)]
pub enum SpawnPlan<A> {
    /// On a pseudo terminal of this size, with `TERM` set to `term` where that is given.
    Pty { program: A, args: Vec<A>, rows: u16, cols: u16, term: Option<String> },
    /// On pipes, in a process group of its own or in that of this program.
    Pipes { program: A, args: Vec<A>, own_group: bool },
}

/// Whether the parent is a terminal for the command: both output streams are.
pub open spec fn is_tty(stdout_is_terminal: bool, stderr_is_terminal: bool) -> bool {
    stdout_is_terminal && stderr_is_terminal
}

/// Whether the command is to have a pseudo terminal: the parent is one, and nothing forbids it.
pub open spec fn wants_pty(force_pipes: bool, parent_is_tty: bool) -> bool {
    !force_pipes && parent_is_tty
}

/// Whether the parent is a terminal for the command: both output streams are. Where one of them
/// is redirected the streams have to stay apart, which a pseudo terminal cannot do.
pub fn parent_is_tty(stdout_is_terminal: bool, stderr_is_terminal: bool) -> (r: bool)
    ensures
        r == is_tty(stdout_is_terminal, stderr_is_terminal),
{
    stdout_is_terminal && stderr_is_terminal
}

/// Whether to start the command on a pseudo terminal.
pub fn use_pty(force_pipes: bool, parent_is_tty: bool) -> (r: bool)
    ensures
        r == wants_pty(force_pipes, parent_is_tty),
{
    !force_pipes && parent_is_tty
}

/// The size of the terminal as rows and columns, where it was reported as columns and rows.
pub fn current_size(reported: Option<(u16, u16)>) -> (r: Option<(u16, u16)>)
    ensures
        r == (match reported {
            Some((cols, rows)) => Some((rows, cols)),
            None => None,
        }),
{
    match reported {
        Some((cols, rows)) => Some((rows, cols)),
        None => None,
    }
}

impl<A> SpawnPlan<A> {
    /// The program and its arguments.
    pub open spec fn command(self) -> Seq<A> {
        match self {
            SpawnPlan::Pty { program, args, .. } => seq![program] + args@,
            SpawnPlan::Pipes { program, args, .. } => seq![program] + args@,
        }
    }
}

/// How to start `cmd`: the program, then its arguments.
///
/// `size` is the terminal's size as rows and columns, `term_is_set` says whether `TERM` is in the
/// environment. On pipes the command gets a process group of its own unless it shares a terminal
/// as its input: there a background group could not read it.
pub fn spawn<A>(
    cmd: Vec<A>,
    use_pty: bool,
    size: Option<(u16, u16)>,
    term_is_set: bool,
    stdin_is_terminal: bool,
) -> (r: Result<SpawnPlan<A>, WatchError>)
    ensures
        match r {
            Ok(plan) => {
                &&& plan.command() == cmd@
                &&& use_pty ==> (plan matches SpawnPlan::Pty { rows, cols, term, .. } && (rows, cols)
                    == (match size {
                    Some(s) => s,
                    None => (DEFAULT_ROWS, DEFAULT_COLS),
                }) && match term {
                    Some(t) => !term_is_set && t@ == "xterm-256color"@,
                    None => term_is_set,
                })
                &&& !use_pty ==> (plan matches SpawnPlan::Pipes { own_group, .. } && own_group
                    == !stdin_is_terminal)
            },
            Err(e) => cmd@.len() == 0 && e == WatchError::NoCommand,
        },
        cmd@.len() == 0 <==> r is Err,
{
    let mut cmd = cmd;
    let ghost whole = cmd@;
    if cmd.len() == 0 {
        return Err(WatchError::NoCommand);
    }
    let program = cmd.remove(0);
    assert(seq![program] + cmd@ =~= whole);
    if use_pty {
        let (rows, cols): (u16, u16) = match size {
            Some(s) => s,
            None => (DEFAULT_ROWS, DEFAULT_COLS),
        };
        let term = if term_is_set {
            None
        } else {
            Some("xterm-256color".to_owned())
        };
        Ok(SpawnPlan::Pty { program, args: cmd, rows, cols, term })
    } else {
        Ok(SpawnPlan::Pipes { program, args: cmd, own_group: !stdin_is_terminal })
    }
}

/// A redirected stream keeps the command off a pseudo terminal, where its two streams would
/// become one.
pub proof fn law_redirection_means_pipes(force_pipes: bool, stdout_tty: bool, stderr_tty: bool)
    requires
        !stdout_tty || !stderr_tty,
    ensures
        !wants_pty(force_pipes, is_tty(stdout_tty, stderr_tty)),
{
}

/// The command has a pseudo terminal exactly where both streams are terminals and nothing forbids
/// it.
pub proof fn law_two_terminals_make_one(force_pipes: bool, stdout_tty: bool, stderr_tty: bool)
    ensures
        wants_pty(force_pipes, is_tty(stdout_tty, stderr_tty)) <==> !force_pipes && stdout_tty
            && stderr_tty,
        is_tty(stdout_tty, stderr_tty) <==> stdout_tty && stderr_tty,
{
}

/// What is started is the program with its arguments, in their order.
pub proof fn law_a_plan_starts_the_command<A>(plan: SpawnPlan<A>)
    ensures
        plan matches SpawnPlan::Pty { program, args, .. } ==> plan.command()[0] == program
            && plan.command().skip(1) == args@,
        plan matches SpawnPlan::Pipes { program, args, .. } ==> plan.command()[0] == program
            && plan.command().skip(1) == args@,
{
    match plan {
        SpawnPlan::Pty { program, args, .. } => {
            assert(plan.command().skip(1) =~= args@);
        },
        SpawnPlan::Pipes { program, args, .. } => {
            assert(plan.command().skip(1) =~= args@);
        },
    }
}

} // verus!
