//! What holds of every run, whatever happens in it and in whichever order.

use vstd::prelude::*;

use crate::wrap::run::{Run, RunAction, RunEvent, RunPhase};
use crate::wrap::signal::{HandlerKind, SignalTarget};
use crate::wrap::status::ExitStatus;
use crate::wrap::tee::SinkKind;

verus! {

/// How the command ended, as it was first said.
pub open spec fn first_exit(events: Seq<RunEvent>) -> Option<ExitStatus>
    decreases events.len(),
{
    if events.len() == 0 {
        None
    } else {
        match (first_exit(events.drop_last()), events.last()) {
            (None, RunEvent::Exited(status)) => Some(status),
            (earlier, _) => earlier,
        }
    }
}

/// Whether a signal to end came while signals were listened for.
pub open spec fn signalled(run: Run, events: Seq<RunEvent>) -> bool
    decreases events.len(),
{
    if events.len() == 0 {
        false
    } else {
        ||| signalled(run, events.drop_last())
        ||| run.after_all(events.drop_last()).listens() && (events.last() is Interrupt
            || events.last() is Terminate)
    }
}

/// Whether `action` ends the run.
pub open spec fn ends_run(action: RunAction) -> bool {
    action is Exit || action is Abandon
}

/// The exit status of a run is that with which the command ended, and the exit sensation is
/// decided on the same status.
pub proof fn law_exit_status_is_the_commands(
    pty: bool,
    target: Option<SignalTarget>,
    events: Seq<RunEvent>,
)
    ensures
        ({
            let run = Run::fresh(pty, target).after_all(events);
            let done = Run::fresh(pty, target).all_actions(events);
            &&& run.phase is Running ==> first_exit(events) is None
            &&& run.phase matches RunPhase::Draining(s) ==> first_exit(events) == Some(s)
            &&& run.phase matches RunPhase::Settling(s) ==> first_exit(events) == Some(s)
            &&& forall|k: int|
                0 <= k < done.len() ==> (#[trigger] done[k] matches RunAction::Exit(s) ==> first_exit(
                    events,
                ) == Some(s))
            &&& forall|k: int|
                0 <= k < done.len() ==> (#[trigger] done[k] matches RunAction::Finish { status, .. }
                    ==> first_exit(events) == Some(status))
        }),
    decreases events.len(),
{
    if events.len() > 0 {
        law_exit_status_is_the_commands(pty, target, events.drop_last());
    }
}

/// A run ends at most once, and with that everything: the last thing to do is to end.
pub proof fn law_a_run_ends_once(pty: bool, target: Option<SignalTarget>, events: Seq<RunEvent>)
    ensures
        ({
            let run = Run::fresh(pty, target).after_all(events);
            let done = Run::fresh(pty, target).all_actions(events);
            &&& run.phase is Finished ==> done.len() > 0 && ends_run(done.last())
            &&& forall|k: int|
                0 <= k < done.len() && ends_run(#[trigger] done[k]) ==> run.phase is Finished && k
                    == done.len() - 1
        }),
    decreases events.len(),
{
    if events.len() > 0 {
        law_a_run_ends_once(pty, target, events.drop_last());
        let fresh = Run::fresh(pty, target);
        let earlier = fresh.all_actions(events.drop_last());
        let before = fresh.after_all(events.drop_last());
        let now = before.actions(events.last());
        let done = fresh.all_actions(events);
        assert(done == earlier + now);
        if before.phase is Finished {
            assert(now =~= Seq::empty());
            assert(done =~= earlier);
        } else {
            assert forall|k: int| 0 <= k < done.len() && ends_run(#[trigger] done[k]) implies k
                == done.len() - 1 && before.after(events.last()).phase is Finished by {
                if k < earlier.len() {
                    assert(ends_run(earlier[k]));
                } else {
                    assert(ends_run(now[k - earlier.len()]));
                }
            }
        }
    }
}

/// The exit sensation is suppressed exactly where a signal to end has come before it is decided
/// on: a signal is never forgotten, and nothing else counts as one.
pub proof fn law_signals_are_remembered(
    pty: bool,
    target: Option<SignalTarget>,
    events: Seq<RunEvent>,
)
    ensures
        ({
            let fresh = Run::fresh(pty, target);
            let done = fresh.all_actions(events);
            &&& fresh.after_all(events).shutdown.shutdown_due_to_signal == signalled(fresh, events)
            &&& forall|k: int|
                0 <= k < done.len() ==> (#[trigger] done[k] matches RunAction::Finish {
                    shutdown_due_to_signal,
                    ..
                } ==> !fresh.after_all(events).listens() && shutdown_due_to_signal == signalled(
                    fresh,
                    events,
                ))
        }),
    decreases events.len(),
{
    if events.len() > 0 {
        law_signals_are_remembered(pty, target, events.drop_last());
    }
}

/// A terminal that was put in raw mode is put back before the run ends, however it ends; one that
/// was not is left alone.
pub proof fn law_terminal_is_put_back(
    pty: bool,
    target: Option<SignalTarget>,
    events: Seq<RunEvent>,
)
    ensures
        ({
            let run = Run::fresh(pty, target).after_all(events);
            let done = Run::fresh(pty, target).all_actions(events);
            &&& run.pty == pty
            &&& pty && run.phase is Finished ==> done.len() > 1 && done[done.len() - 2]
                == RunAction::RestoreTerminal
            &&& forall|k: int|
                0 <= k < done.len() && (#[trigger] done[k]) is RestoreTerminal ==> pty
                    && run.phase is Finished
        }),
    decreases events.len(),
{
    if events.len() > 0 {
        law_terminal_is_put_back(pty, target, events.drop_last());
    }
}

/// All output is taken in before it is decided what the exit fires, and that is decided before
/// the run ends with a status.
pub proof fn law_output_comes_before_the_exit(
    pty: bool,
    target: Option<SignalTarget>,
    events: Seq<RunEvent>,
)
    ensures
        ({
            let run = Run::fresh(pty, target).after_all(events);
            let done = Run::fresh(pty, target).all_actions(events);
            &&& run.phase is Draining || run.phase is Settling ==> exists|j: int|
                0 <= j < done.len() && (#[trigger] done[j]) is DrainOutput
            &&& run.phase is Settling ==> exists|j: int|
                0 <= j < done.len() && (#[trigger] done[j]) is Finish
            &&& forall|k: int|
                0 <= k < done.len() && (#[trigger] done[k]) is Finish ==> events.contains(
                    RunEvent::OutputDrained,
                ) && exists|j: int| 0 <= j < k && (#[trigger] done[j]) is DrainOutput
            &&& forall|k: int|
                0 <= k < done.len() && (#[trigger] done[k]) is Exit ==> exists|j: int|
                    0 <= j < k && (#[trigger] done[j]) is Finish
        }),
    decreases events.len(),
{
    if events.len() > 0 {
        law_output_comes_before_the_exit(pty, target, events.drop_last());
        let fresh = Run::fresh(pty, target);
        let before = fresh.after_all(events.drop_last());
        let done = fresh.all_actions(events);
        let earlier = fresh.all_actions(events.drop_last());
        let now = before.actions(events.last());
        let n = earlier.len() as int;
        assert(done == earlier + now);
        assert forall|k: int| 0 <= k < now.len() implies done[n + k] == #[trigger] now[k] by {}
        if before.phase is Draining || before.phase is Settling {
            let j = choose|j: int| 0 <= j < earlier.len() && (#[trigger] earlier[j]) is DrainOutput;
            assert(done[j] == earlier[j]);
        }
        if before.phase is Settling {
            let j = choose|j: int| 0 <= j < earlier.len() && (#[trigger] earlier[j]) is Finish;
            assert(done[j] == earlier[j]);
        }
        if before.phase is Running && events.last() is Exited {
            assert(now[1] is DrainOutput);
            assert(done[n + 1] is DrainOutput);
        }
        if before.phase is Draining && events.last() is OutputDrained {
            assert(now[0] is Finish);
            assert(done[n] is Finish);
            assert(events[events.len() - 1] == RunEvent::OutputDrained);
        }
        assert forall|k: int|
            0 <= k < done.len() && (#[trigger] done[k]) is Finish implies events.contains(
            RunEvent::OutputDrained,
        ) && exists|j: int| 0 <= j < k && (#[trigger] done[j]) is DrainOutput by {
            if k < n {
                assert(earlier[k] is Finish);
                let i = choose|i: int|
                    0 <= i < events.len() - 1 && events.drop_last()[i] == RunEvent::OutputDrained;
                assert(events[i] == RunEvent::OutputDrained);
                let j = choose|j: int| 0 <= j < k && (#[trigger] earlier[j]) is DrainOutput;
                assert(done[j] == earlier[j]);
            } else {
                assert(now[k - n] is Finish);
            }
        }
        assert forall|k: int| 0 <= k < done.len() && (#[trigger] done[k]) is Exit implies exists|
            j: int,
        | 0 <= j < k && (#[trigger] done[j]) is Finish by {
            if k < n {
                assert(earlier[k] is Exit);
                let j = choose|j: int| 0 <= j < k && (#[trigger] earlier[j]) is Finish;
                assert(done[j] == earlier[j]);
            } else {
                assert(now[k - n] is Exit);
            }
        }
    }
}

/// Signals go to the run's own target, and each of them at most once.
pub proof fn law_signals_are_passed_on_once(
    pty: bool,
    target: Option<SignalTarget>,
    events: Seq<RunEvent>,
)
    ensures
        ({
            let run = Run::fresh(pty, target).after_all(events);
            let done = Run::fresh(pty, target).all_actions(events);
            &&& run.target == target
            &&& forall|k: int|
                0 <= k < done.len() ==> (#[trigger] done[k] matches RunAction::Forward {
                    target: t,
                    signal,
                } ==> target == Some(t) && (match signal {
                    crate::wrap::signal::Forwarded::Interrupt => run.interrupted,
                    crate::wrap::signal::Forwarded::Terminate => run.terminated,
                    crate::wrap::signal::Forwarded::BrokenPipe => run.pipe_broken,
                }))
            &&& forall|k: int, l: int|
                0 <= k < l < done.len() && (#[trigger] done[k]) is Forward && (
                #[trigger] done[l]) is Forward ==> done[k] != done[l]
        }),
    decreases events.len(),
{
    if events.len() > 0 {
        law_signals_are_passed_on_once(pty, target, events.drop_last());
    }
}

/// The first interrupt and the first request to terminate each reach the command, or what is left
/// of its group, at once, until all of its output is taken in. So does the first broken stream
/// while the command runs.
pub proof fn law_signals_reach_the_command(run: Run, event: RunEvent, target: SignalTarget)
    requires
        run.listens(),
        run.target == Some(target),
    ensures
        event is Interrupt && !run.interrupted ==> run.actions(event) == seq![
            RunAction::Forward { target, signal: crate::wrap::signal::Forwarded::Interrupt },
        ],
        event is Terminate && !run.terminated ==> run.actions(event) == seq![
            RunAction::Forward { target, signal: crate::wrap::signal::Forwarded::Terminate },
        ],
        event is PipeBroken && run.phase is Running && !run.pipe_broken ==> run.actions(event) == seq![
            RunAction::Forward { target, signal: crate::wrap::signal::Forwarded::BrokenPipe },
        ],
{
}

/// A run is bound to end: once the command has ended and the output and the requests are through,
/// it ends with the command's status, whatever signals come in between.
pub proof fn law_a_run_comes_to_its_end(run: Run, status: ExitStatus)
    requires
        run.phase is Running,
    ensures
        ({
            let exited = run.after(RunEvent::Exited(status));
            let drained = exited.after(RunEvent::OutputDrained);
            &&& drained.actions(RunEvent::TriggersDrained).last() == RunAction::Exit(status)
            &&& drained.after(RunEvent::TriggersDrained).phase is Finished
            &&& exited.after(RunEvent::Interrupt).phase == exited.phase
            &&& exited.after(RunEvent::Terminate).phase == exited.phase
            &&& drained.after(RunEvent::Interrupt) == drained
            &&& drained.after(RunEvent::Terminate) == drained
        }),
{
}

/// A run starts with its command running, nothing noted and nobody heard.
pub proof fn law_a_run_starts_afresh(pty: bool, target: Option<SignalTarget>)
    ensures
        ({
            let run = Run::fresh(pty, target);
            &&& run.phase is Running
            &&& run.pty == pty
            &&& run.target == target
            &&& !run.interrupted && !run.terminated && !run.pipe_broken
            &&& !run.shutdown.shutdown_due_to_signal
        }),
{
}

/// What is set up: on a pseudo terminal raw mode, the input's way and the one output stream; on pipes
/// both output streams and neither of the others. Signals and broken streams are listened for
/// before the command is waited for, which comes last.
pub proof fn law_what_is_set_up(pty: bool)
    ensures
        ({
            let todo = crate::wrap::run::first_actions(pty);
            &&& todo.contains(RunAction::EnableRawMode) <==> pty
            &&& todo.contains(RunAction::ForwardStdin) <==> pty
            &&& todo.contains(RunAction::Tee(SinkKind::Stdout))
            &&& todo.contains(RunAction::Tee(SinkKind::Stderr)) <==> !pty
            &&& todo.contains(RunAction::Handle(HandlerKind::Interrupt))
            &&& todo.contains(RunAction::Handle(HandlerKind::Terminate))
            &&& todo.contains(RunAction::Handle(HandlerKind::WindowChange)) <==> pty
            &&& todo.contains(RunAction::WatchPipe)
            &&& todo.last() == RunAction::Wait
            &&& todo.no_duplicates()
            &&& pty ==> todo[0] == RunAction::EnableRawMode
            &&& todo.len() == (if pty {
                8int
            } else {
                6
            })
        }),
{
    let todo = crate::wrap::run::first_actions(pty);
    if pty {
        assert(todo[1] == RunAction::ForwardStdin);
        assert(todo[2] == RunAction::Tee(SinkKind::Stdout));
        assert(todo[3] == RunAction::Handle(HandlerKind::Interrupt));
        assert(todo[4] == RunAction::Handle(HandlerKind::Terminate));
        assert(todo[5] == RunAction::Handle(HandlerKind::WindowChange));
        assert(todo[6] == RunAction::WatchPipe);
        assert(todo[0] == RunAction::EnableRawMode);
    } else {
        assert(todo[0] == RunAction::Tee(SinkKind::Stdout));
        assert(todo[1] == RunAction::Tee(SinkKind::Stderr));
        assert(todo[2] == RunAction::Handle(HandlerKind::Interrupt));
        assert(todo[3] == RunAction::Handle(HandlerKind::Terminate));
        assert(todo[4] == RunAction::WatchPipe);
    }
}

/// A run that is wound up does it in this order, with whatever status the command ended and
/// whatever happened before: the output is drained; what the exit fires is decided, on that status
/// and on whether a signal came, signals are no longer heard, and requests get one second; the
/// terminal is put back where it was taken, and the run ends with the status.
pub proof fn law_how_a_run_is_wound_up(run: Run, status: ExitStatus)
    requires
        run.phase is Running,
    ensures
        ({
            let exited = run.after(RunEvent::Exited(status));
            let drained = exited.after(RunEvent::OutputDrained);
            let ended = drained.after(RunEvent::TriggersDrained);
            &&& run.actions(RunEvent::Exited(status)) == seq![
                RunAction::UnwatchPipe,
                RunAction::DrainOutput,
            ]
            &&& exited == (Run { phase: RunPhase::Draining(status), ..run })
            &&& exited.actions(RunEvent::OutputDrained) == seq![
                RunAction::Finish {
                    status,
                    shutdown_due_to_signal: run.shutdown.shutdown_due_to_signal,
                },
                RunAction::RemoveHandlers,
                RunAction::DrainTriggers(crate::time::Duration { nanos: 1_000_000_000 }),
            ]
            &&& drained == (Run { phase: RunPhase::Settling(status), ..run })
            &&& run.pty ==> drained.actions(RunEvent::TriggersDrained) == seq![
                RunAction::RestoreTerminal,
                RunAction::Exit(status),
            ]
            &&& !run.pty ==> drained.actions(RunEvent::TriggersDrained) == seq![
                RunAction::Exit(status),
            ]
            &&& ended == (Run { phase: RunPhase::Finished, ..run })
        }),
{
    let drained = run.after(RunEvent::Exited(status)).after(RunEvent::OutputDrained);
    if run.pty {
        assert(drained.actions(RunEvent::TriggersDrained) =~= seq![
            RunAction::RestoreTerminal,
            RunAction::Exit(status),
        ]);
    } else {
        assert(drained.actions(RunEvent::TriggersDrained) =~= seq![RunAction::Exit(status)]);
    }
}

/// Where it cannot be found out how the command ended, the run is given up, the terminal put back.
pub proof fn law_a_lost_command_ends_the_run(run: Run)
    requires
        run.phase is Running,
    ensures
        run.after(RunEvent::WaitFailed) == (Run { phase: RunPhase::Finished, ..run }),
        run.pty ==> run.actions(RunEvent::WaitFailed) == seq![
            RunAction::RestoreTerminal,
            RunAction::Abandon,
        ],
        !run.pty ==> run.actions(RunEvent::WaitFailed) == seq![RunAction::Abandon],
{
    if run.pty {
        assert(run.actions(RunEvent::WaitFailed) =~= seq![
            RunAction::RestoreTerminal,
            RunAction::Abandon,
        ]);
    } else {
        assert(run.actions(RunEvent::WaitFailed) =~= seq![RunAction::Abandon]);
    }
}

/// A signal to end is noted as long as signals are heard, and changes nothing else. A second one of
/// its kind is not passed on, and neither is one to a command without a process id.
pub proof fn law_a_signal_is_noted(run: Run)
    requires
        run.listens(),
    ensures
        run.after(RunEvent::Interrupt) == (Run {
            interrupted: true,
            shutdown: crate::wrap::signal::ShutdownState { shutdown_due_to_signal: true },
            ..run
        }),
        run.after(RunEvent::Terminate) == (Run {
            terminated: true,
            shutdown: crate::wrap::signal::ShutdownState { shutdown_due_to_signal: true },
            ..run
        }),
        run.interrupted || run.target is None ==> run.actions(RunEvent::Interrupt).len() == 0,
        run.terminated || run.target is None ==> run.actions(RunEvent::Terminate).len() == 0,
{
}

/// A broken stream is remembered while the command runs, and passed on the first time only; it is no
/// signal to end.
pub proof fn law_a_broken_stream_is_remembered(run: Run)
    ensures
        run.phase is Running ==> run.after(RunEvent::PipeBroken) == (Run {
            pipe_broken: true,
            ..run
        }),
        run.pipe_broken || run.target is None || !(run.phase is Running) ==> run.actions(
            RunEvent::PipeBroken,
        ).len() == 0,
        !(run.phase is Running) ==> run.after(RunEvent::PipeBroken) == run,
{
}

/// A new size of the terminal is passed on to the command's own, as rows and columns, as often as it
/// comes and as long as signals are heard; without one of its own, or where the size is not known,
/// nothing is done.
pub proof fn law_a_new_size_is_passed_on(run: Run, size: Option<(u16, u16)>)
    ensures
        run.after(RunEvent::Resized(size)) == run,
        size matches Some((rows, cols)) ==> (run.pty && run.listens() ==> run.actions(
            RunEvent::Resized(size),
        ) == seq![RunAction::Resize { rows, cols }]),
        size is None || !run.pty || !run.listens() ==> run.actions(RunEvent::Resized(size)).len()
            == 0,
{
}

/// Signals are heard exactly until it is decided what the exit fires.
pub proof fn law_how_long_signals_are_heard(run: Run)
    ensures
        run.listens() <==> !(run.phase is Settling) && !(run.phase is Finished),
{
}

/// What comes out of its time changes nothing and asks for nothing: an end that was seen before, a
/// drain that nobody waits for, a signal that is no longer heard.
pub proof fn law_late_events_change_nothing(run: Run, event: RunEvent)
    requires
        event is Exited || event is WaitFailed ==> !(run.phase is Running),
        event is OutputDrained ==> !(run.phase is Draining),
        event is TriggersDrained ==> !(run.phase is Settling),
        event is Interrupt || event is Terminate ==> !run.listens(),
        !(event is PipeBroken) && !(event is Resized),
    ensures
        run.after(event) == run,
        run.actions(event) == Seq::<RunAction>::empty(),
{
}

} // verus!
