//! Signals to this program: which are listened for, and what is passed on to the wrapped command.

use vstd::prelude::*;

use crate::wrap::status::{host_signals, SignalNumbers};

verus! {

/// Whether the run ends because a signal asked for it.
#[derive(Debug, Clone, Copy, PartialEq, Eq, Structural)]
pub struct ShutdownState {
    pub shutdown_due_to_signal: bool,
}

impl Default for ShutdownState {
    fn default() -> (r: Self)
        ensures
            !r.shutdown_due_to_signal,
    {
        ShutdownState { shutdown_due_to_signal: false }
    }
}

impl ShutdownState {
    /// Take note of a signal. There is no way back.
    pub fn signal(&mut self)
        ensures
            final(self).shutdown_due_to_signal,
    {
        self.shutdown_due_to_signal = true;
    }

    /// Whether a signal was noted.
    pub fn was_signal(&self) -> (r: bool)
        ensures
            r == self.shutdown_due_to_signal,
    {
        self.shutdown_due_to_signal
    }
}

/// Where signals for the wrapped command go: to its process, or to its whole process group.
#[derive(Debug, Clone, Copy, PartialEq, Eq, Structural)]
pub struct SignalTarget {
    pub pid: i32,
    pub group: bool,
}

/// Whether `pid` can be the process id of a wrapped command: not zero, and not that of the init
/// process.
pub open spec fn is_child_pid(pid: u32) -> bool {
    2 <= pid <= i32::MAX
}

impl SignalTarget {
    /// What holds of every target.
    pub open spec fn wf(self) -> bool {
        self.pid >= 2
    }

    /// The first argument of `kill` for this target: the process, or the negated group.
    pub open spec fn kill_pid(self) -> int {
        if self.group {
            -self.pid
        } else {
            self.pid as int
        }
    }

    /// The target for a command with process id `pid`, if it has one, that leads its own process
    /// group or does not.
    pub fn new(pid: Option<u32>, pgrp_leader: bool) -> (r: Option<SignalTarget>)
        ensures
            match r {
                Some(t) => pid matches Some(p) && is_child_pid(p) && t.pid == p && t.group
                    == pgrp_leader && t.wf(),
                None => pid is None || !is_child_pid(pid->0),
            },
    {
        match pid {
            Some(p) => if p >= 2 && p <= i32::MAX as u32 {
                Some(SignalTarget { pid: p as i32, group: pgrp_leader })
            } else {
                None
            },
            None => None,
        }
    }
}

/// A signal that is passed on to the wrapped command.
#[derive(Debug, Clone, Copy, PartialEq, Eq, Structural)]
pub enum Forwarded {
    Interrupt,
    Terminate,
    BrokenPipe,
}

impl Forwarded {
    /// The number of the signal.
    pub open spec fn number(self, n: SignalNumbers) -> i32 {
        match self {
            Forwarded::Interrupt => n.int,
            Forwarded::Terminate => n.term,
            Forwarded::BrokenPipe => n.pipe,
        }
    }

    /// The number of the signal, on a system with the signal numbers `n`.
    pub fn signum_in(self, n: &SignalNumbers) -> (r: i32)
        ensures
            r == self.number(*n),
    {
        match self {
            Forwarded::Interrupt => n.int,
            Forwarded::Terminate => n.term,
            Forwarded::BrokenPipe => n.pipe,
        }
    }
}

/// The arguments of `kill` that pass `signal` on to `target`: where to, and which signal.
pub fn forward_signal(target: SignalTarget, signal: Forwarded) -> (r: (i32, i32))
    requires
        target.wf(),
    ensures
        r.0 == target.kill_pid(),
        exists|n: SignalNumbers| n.usual() && r.1 == #[trigger] signal.number(n),
{
    let n = host_signals();
    let pid: i32 = if target.group {
        -target.pid
    } else {
        target.pid
    };
    (pid, signal.signum_in(&n))
}

/// A signal that this program listens for.
#[derive(Debug, Clone, Copy, PartialEq, Eq, Structural)]
pub enum HandlerKind {
    Interrupt,
    Terminate,
    /// The terminal has changed its size.
    WindowChange,
}

/// The signals to listen for: the resizing of the terminal only where the command has one of its
/// own to resize.
pub open spec fn handlers(pty: bool) -> Seq<HandlerKind> {
    if pty {
        seq![HandlerKind::Interrupt, HandlerKind::Terminate, HandlerKind::WindowChange]
    } else {
        seq![HandlerKind::Interrupt, HandlerKind::Terminate]
    }
}

/// The signals to listen for.
pub fn install_handlers(pty: bool) -> (r: Vec<HandlerKind>)
    ensures
        r@ == handlers(pty),
{
    let mut r: Vec<HandlerKind> = Vec::new();
    r.push(HandlerKind::Interrupt);
    r.push(HandlerKind::Terminate);
    if pty {
        r.push(HandlerKind::WindowChange);
    }
    assert(r@ =~= handlers(pty));
    r
}

/// A signal goes to the wrapped command or its group alone: never to this program's own group
/// (zero), to every process (minus one) or to the init process (one).
pub proof fn law_only_the_command_is_signalled(target: SignalTarget)
    requires
        target.wf(),
    ensures
        target.kill_pid() < -1 || target.kill_pid() > 1,
        target.kill_pid() == target.pid || target.kill_pid() == -target.pid,
{
}

/// A command that leads its group is signalled with all of it, another one alone.
pub proof fn law_a_group_is_signalled_whole(target: SignalTarget)
    ensures
        target.group ==> target.kill_pid() + target.pid == 0,
        !target.group ==> target.kill_pid() == target.pid,
{
}

/// Every process id from 2 on is one that a command can have.
pub proof fn law_children_have_process_ids(pid: u32)
    ensures
        is_child_pid(pid) <==> pid != 0 && pid != 1 && pid <= 2147483647,
{
}

/// A signal is passed on as itself.
pub proof fn law_a_signal_is_passed_on_as_itself(n: SignalNumbers)
    ensures
        Forwarded::Interrupt.number(n) == n.int,
        Forwarded::Terminate.number(n) == n.term,
        Forwarded::BrokenPipe.number(n) == n.pipe,
        n.usual() ==> Forwarded::Interrupt.number(n) == 2 && Forwarded::Terminate.number(n) == 15
            && (Forwarded::BrokenPipe.number(n) == 13 || Forwarded::BrokenPipe.number(n) == 7),
{
}

/// Interrupts and requests to terminate are always listened for, the terminal's size exactly where
/// the command has one, and each of them once.
pub proof fn law_what_is_listened_for(pty: bool)
    ensures
        handlers(pty).contains(HandlerKind::Interrupt),
        handlers(pty).contains(HandlerKind::Terminate),
        handlers(pty).contains(HandlerKind::WindowChange) <==> pty,
        handlers(pty).no_duplicates(),
{
    let h = handlers(pty);
    assert(h[0] == HandlerKind::Interrupt);
    assert(h[1] == HandlerKind::Terminate);
    if pty {
        assert(h[2] == HandlerKind::WindowChange);
    }
}

} // verus!
