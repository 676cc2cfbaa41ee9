//! The course of a run: what is set up, what is passed on, and in which order it is wound up.
//!
//! A run is driven by events. For each it says what to do; it does nothing itself. Once the
//! command has ended, all of its output is taken in first. Then it is decided what the exit fires,
//! then the requests on their way get a last second, then the terminal is put back, and only then
//! the run is over.

use vstd::prelude::*;

use crate::time::Duration;
use crate::wrap::signal::{Forwarded, HandlerKind, ShutdownState, SignalTarget};
use crate::wrap::status::ExitStatus;
use crate::wrap::tee::SinkKind;

verus! {

/// How many seconds requests get that are on their way when the run is over.
pub const DRAIN_SECS: u64 = 1;

/// How far a run has got.
#[derive(Debug, Clone, Copy, PartialEq, Eq, Structural)]
pub enum RunPhase {
    /// The command runs.
    Running,
    /// The command has ended; its output is still being taken in.
    Draining(ExitStatus),
    /// Everything has been fired; requests are still on their way.
    Settling(ExitStatus),
    /// The run is over.
    Finished,
}

/// The state of a run.
#[derive(Debug, Clone, Copy, PartialEq, Eq, Structural)]
pub struct Run {
    /// Whether the command has a pseudo terminal.
    pub pty: bool,
    /// Where its signals go.
    pub target: Option<SignalTarget>,
    /// Whether an interrupt has been received.
    pub interrupted: bool,
    /// Whether a request to terminate has been received.
    pub terminated: bool,
    /// Whether one of the parent's streams was found broken.
    pub pipe_broken: bool,
    pub shutdown: ShutdownState,
    pub phase: RunPhase,
}

/// What happens in a run.
#[derive(Debug, Clone, Copy, PartialEq, Eq)]
pub enum RunEvent {
    /// This program was interrupted.
    Interrupt,
    /// This program was asked to terminate.
    Terminate,
    /// The terminal changed its size to these rows and columns, where they are known.
    Resized(Option<(u16, u16)>),
    /// Whoever read one of the parent's streams is gone.
    PipeBroken,
    /// The command has ended.
    Exited(ExitStatus),
    /// It cannot be found out how the command ended.
    WaitFailed,
    /// All output has been copied and scanned.
    OutputDrained,
    /// No request is on its way any more, or its time is up.
    TriggersDrained,
}

/// What to do in a run.
#[derive(Debug, Clone, Copy, PartialEq, Eq, Structural)]
pub enum RunAction {
    /// Put the parent's terminal in raw mode.
    EnableRawMode,
    /// Pass the parent's input on to the command's terminal.
    ForwardStdin,
    /// Copy output to this stream of the parent.
    Tee(SinkKind),
    /// Listen for this signal.
    Handle(HandlerKind),
    /// Watch for a broken stream of the parent.
    WatchPipe,
    /// Wait for the command to end.
    Wait,
    /// Pass this signal on.
    Forward { target: SignalTarget, signal: Forwarded },
    /// Give the command's terminal this size.
    Resize { rows: u16, cols: u16 },
    /// Stop watching for a broken stream.
    UnwatchPipe,
    /// Wait for the rest of the output, to be copied and scanned.
    DrainOutput,
    /// Fire what the lines without an end and the exit fire.
    Finish { status: ExitStatus, shutdown_due_to_signal: bool },
    /// Stop listening for signals.
    RemoveHandlers,
    /// Let the requests on their way come through, for so long.
    DrainTriggers(Duration),
    /// Put the parent's terminal back.
    RestoreTerminal,
    /// The run is over, and this is how the command ended.
    Exit(ExitStatus),
    /// The run is over without an exit status.
    Abandon,
}

/// What to do first in a run.
pub open spec fn first_actions(pty: bool) -> Seq<RunAction> {
    if pty {
        seq![
            RunAction::EnableRawMode,
            RunAction::ForwardStdin,
            RunAction::Tee(SinkKind::Stdout),
            RunAction::Handle(HandlerKind::Interrupt),
            RunAction::Handle(HandlerKind::Terminate),
            RunAction::Handle(HandlerKind::WindowChange),
            RunAction::WatchPipe,
            RunAction::Wait,
        ]
    } else {
        seq![
            RunAction::Tee(SinkKind::Stdout),
            RunAction::Tee(SinkKind::Stderr),
            RunAction::Handle(HandlerKind::Interrupt),
            RunAction::Handle(HandlerKind::Terminate),
            RunAction::WatchPipe,
            RunAction::Wait,
        ]
    }
}

/// Passing `signal` on, where there is somebody to pass it on to.
pub open spec fn forwarding(target: Option<SignalTarget>, signal: Forwarded) -> Seq<RunAction> {
    match target {
        Some(target) => seq![RunAction::Forward { target, signal }],
        None => Seq::empty(),
    }
}

/// Putting the terminal back, where it was taken.
pub open spec fn restoring(pty: bool) -> Seq<RunAction> {
    if pty {
        seq![RunAction::RestoreTerminal]
    } else {
        Seq::empty()
    }
}

impl Run {
    /// A run whose command was just started.
    pub open spec fn fresh(pty: bool, target: Option<SignalTarget>) -> Run {
        Run {
            pty,
            target,
            interrupted: false,
            terminated: false,
            pipe_broken: false,
            shutdown: ShutdownState { shutdown_due_to_signal: false },
            phase: RunPhase::Running,
        }
    }

    /// Whether signals are still listened for.
    pub open spec fn listens(self) -> bool {
        self.phase is Running || self.phase is Draining
    }

    /// The run once `event` has happened.
    pub open spec fn after(self, event: RunEvent) -> Run {
        match (event, self.phase) {
            (RunEvent::Interrupt, RunPhase::Running | RunPhase::Draining(_)) => Run {
                interrupted: true,
                shutdown: ShutdownState { shutdown_due_to_signal: true },
                ..self
            },
            (RunEvent::Terminate, RunPhase::Running | RunPhase::Draining(_)) => Run {
                terminated: true,
                shutdown: ShutdownState { shutdown_due_to_signal: true },
                ..self
            },
            (RunEvent::PipeBroken, RunPhase::Running) => Run { pipe_broken: true, ..self },
            (RunEvent::Exited(status), RunPhase::Running) => Run {
                phase: RunPhase::Draining(status),
                ..self
            },
            (RunEvent::WaitFailed, RunPhase::Running) => Run {
                phase: RunPhase::Finished,
                ..self
            },
            (RunEvent::OutputDrained, RunPhase::Draining(status)) => Run {
                phase: RunPhase::Settling(status),
                ..self
            },
            (RunEvent::TriggersDrained, RunPhase::Settling(_)) => Run {
                phase: RunPhase::Finished,
                ..self
            },
            _ => self,
        }
    }

    /// What to do once `event` has happened. A signal is passed on the first time only. One to end
    /// is also passed on once the command has ended: others of its group may still hold its output
    /// open.
    pub open spec fn actions(self, event: RunEvent) -> Seq<RunAction> {
        match (event, self.phase) {
            (RunEvent::Interrupt, _) if self.listens() && !self.interrupted => forwarding(
                self.target,
                Forwarded::Interrupt,
            ),
            (RunEvent::Terminate, _) if self.listens() && !self.terminated => forwarding(
                self.target,
                Forwarded::Terminate,
            ),
            (RunEvent::Resized(Some((rows, cols))), _) if self.pty && self.listens() => seq![
                RunAction::Resize { rows, cols },
            ],
            (RunEvent::PipeBroken, RunPhase::Running) if !self.pipe_broken => forwarding(
                self.target,
                Forwarded::BrokenPipe,
            ),
            (RunEvent::Exited(_), RunPhase::Running) => seq![
                RunAction::UnwatchPipe,
                RunAction::DrainOutput,
            ],
            (RunEvent::WaitFailed, RunPhase::Running) => restoring(self.pty).push(
                RunAction::Abandon,
            ),
            (RunEvent::OutputDrained, RunPhase::Draining(status)) => seq![
                RunAction::Finish {
                    status,
                    shutdown_due_to_signal: self.shutdown.shutdown_due_to_signal,
                },
                RunAction::RemoveHandlers,
                RunAction::DrainTriggers(Duration { nanos: 1_000_000_000 }),
            ],
            (RunEvent::TriggersDrained, RunPhase::Settling(status)) => restoring(self.pty).push(
                RunAction::Exit(status),
            ),
            _ => Seq::empty(),
        }
    }

    /// The run once `events` have happened one after the other.
    pub open spec fn after_all(self, events: Seq<RunEvent>) -> Run
        decreases events.len(),
    {
        if events.len() == 0 {
            self
        } else {
            self.after_all(events.drop_last()).after(events.last())
        }
    }

    /// All that was to be done while `events` happened, in order.
    pub open spec fn all_actions(self, events: Seq<RunEvent>) -> Seq<RunAction>
        decreases events.len(),
    {
        if events.len() == 0 {
            Seq::empty()
        } else {
            self.all_actions(events.drop_last()) + self.after_all(events.drop_last()).actions(
                events.last(),
            )
        }
    }

    /// A run whose command was just started, and what to do first. Signals for the command go to
    /// `target`.
    pub fn start(pty: bool, target: Option<SignalTarget>) -> (r: (Run, Vec<RunAction>))
        ensures
            r.0 == Run::fresh(pty, target),
            r.1@ == first_actions(pty),
    {
        let mut todo: Vec<RunAction> = Vec::new();
        if pty {
            todo.push(RunAction::EnableRawMode);
            todo.push(RunAction::ForwardStdin);
        }
        todo.push(RunAction::Tee(SinkKind::Stdout));
        if !pty {
            todo.push(RunAction::Tee(SinkKind::Stderr));
        }
        let kinds = crate::wrap::signal::install_handlers(pty);
        let ghost before = todo@;
        let mut i: usize = 0;
        while i < kinds.len()
            invariant
                i <= kinds@.len(),
                todo@ == before + Seq::new(i as nat, |j: int| RunAction::Handle(kinds@[j])),
            decreases kinds@.len() - i,
        {
            todo.push(RunAction::Handle(kinds[i]));
            i += 1;
            assert(todo@ =~= before + Seq::new(i as nat, |j: int| RunAction::Handle(kinds@[j])));
        }
        todo.push(RunAction::WatchPipe);
        todo.push(RunAction::Wait);
        assert(todo@ =~= first_actions(pty));
        let shutdown = ShutdownState::default();
        let run = Run {
            pty,
            target,
            interrupted: false,
            terminated: false,
            pipe_broken: false,
            shutdown,
            phase: RunPhase::Running,
        };
        (run, todo)
    }

    /// Take note of what happened, and say what to do.
    pub fn step(&mut self, event: RunEvent) -> (r: Vec<RunAction>)
        ensures
            *final(self) == old(self).after(event),
            r@ == old(self).actions(event),
    {
        let mut todo: Vec<RunAction> = Vec::new();
        match event {
            RunEvent::Interrupt => match self.phase {
                RunPhase::Running | RunPhase::Draining(_) => {
                    if !self.interrupted {
                        push_forward(&mut todo, self.target, Forwarded::Interrupt);
                    }
                    self.interrupted = true;
                    self.shutdown.signal();
                },
                RunPhase::Settling(_) | RunPhase::Finished => {},
            },
            RunEvent::Terminate => match self.phase {
                RunPhase::Running | RunPhase::Draining(_) => {
                    if !self.terminated {
                        push_forward(&mut todo, self.target, Forwarded::Terminate);
                    }
                    self.terminated = true;
                    self.shutdown.signal();
                },
                RunPhase::Settling(_) | RunPhase::Finished => {},
            },
            RunEvent::Resized(size) => match self.phase {
                RunPhase::Running | RunPhase::Draining(_) => {
                    if self.pty {
                        if let Some((rows, cols)) = size {
                            todo.push(RunAction::Resize { rows, cols });
                        }
                    }
                },
                RunPhase::Settling(_) | RunPhase::Finished => {},
            },
            RunEvent::PipeBroken => match self.phase {
                RunPhase::Running => {
                    if !self.pipe_broken {
                        push_forward(&mut todo, self.target, Forwarded::BrokenPipe);
                    }
                    self.pipe_broken = true;
                },
                _ => {},
            },
            RunEvent::Exited(status) => match self.phase {
                RunPhase::Running => {
                    self.phase = RunPhase::Draining(status);
                    todo.push(RunAction::UnwatchPipe);
                    todo.push(RunAction::DrainOutput);
                },
                _ => {},
            },
            RunEvent::WaitFailed => match self.phase {
                RunPhase::Running => {
                    self.phase = RunPhase::Finished;
                    if self.pty {
                        todo.push(RunAction::RestoreTerminal);
                    }
                    todo.push(RunAction::Abandon);
                },
                _ => {},
            },
            RunEvent::OutputDrained => match self.phase {
                RunPhase::Draining(status) => {
                    self.phase = RunPhase::Settling(status);
                    let shutdown_due_to_signal = self.shutdown.was_signal();
                    todo.push(RunAction::Finish { status, shutdown_due_to_signal });
                    todo.push(RunAction::RemoveHandlers);
                    todo.push(RunAction::DrainTriggers(Duration::from_secs(DRAIN_SECS)));
                },
                _ => {},
            },
            RunEvent::TriggersDrained => match self.phase {
                RunPhase::Settling(status) => {
                    self.phase = RunPhase::Finished;
                    if self.pty {
                        todo.push(RunAction::RestoreTerminal);
                    }
                    todo.push(RunAction::Exit(status));
                },
                _ => {},
            },
        }
        assert(todo@ =~= old(self).actions(event));
        todo
    }
}

/// Append the passing on of `signal`, where there is somebody to pass it on to.
fn push_forward(todo: &mut Vec<RunAction>, target: Option<SignalTarget>, signal: Forwarded)
    ensures
        final(todo)@ == old(todo)@ + forwarding(target, signal),
{
    if let Some(target) = target {
        todo.push(RunAction::Forward { target, signal });
    }
    assert(todo@ =~= old(todo)@ + forwarding(target, signal));
}

} // verus!
