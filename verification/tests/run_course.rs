//! The course of a run.

use smited_watch::time::Duration;
use smited_watch::wrap::run::{Run, RunAction, RunEvent, RunPhase};
use smited_watch::wrap::signal::{
    forward_signal, install_handlers, Forwarded, HandlerKind, ShutdownState, SignalTarget,
};
use smited_watch::wrap::spawn::{current_size, parent_is_tty, spawn, use_pty, SpawnPlan};
use smited_watch::wrap::status::ExitStatus;
use smited_watch::wrap::stdin::RawModeGuard;
use smited_watch::wrap::tee::SinkKind;

fn target() -> SignalTarget {
    SignalTarget::new(Some(4242), true).expect("a child")
}

fn status(code: i32) -> ExitStatus {
    ExitStatus::from_raw(code << 8)
}

#[test]
fn a_run_on_pipes_goes_its_course() {
    let (mut run, first) = Run::start(false, Some(target()));
    assert_eq!(
        first,
        vec![
            RunAction::Tee(SinkKind::Stdout),
            RunAction::Tee(SinkKind::Stderr),
            RunAction::Handle(HandlerKind::Interrupt),
            RunAction::Handle(HandlerKind::Terminate),
            RunAction::WatchPipe,
            RunAction::Wait,
        ]
    );
    assert_eq!(
        run.step(RunEvent::Exited(status(7))),
        vec![RunAction::UnwatchPipe, RunAction::DrainOutput]
    );
    assert_eq!(
        run.step(RunEvent::OutputDrained),
        vec![
            RunAction::Finish {
                status: status(7),
                shutdown_due_to_signal: false
            },
            RunAction::RemoveHandlers,
            RunAction::DrainTriggers(Duration::from_secs(1)),
        ]
    );
    assert_eq!(
        run.step(RunEvent::TriggersDrained),
        vec![RunAction::Exit(status(7))]
    );
    assert_eq!(run.phase, RunPhase::Finished);
    for event in [
        RunEvent::Interrupt,
        RunEvent::Exited(status(0)),
        RunEvent::OutputDrained,
        RunEvent::TriggersDrained,
        RunEvent::WaitFailed,
    ] {
        assert!(run.step(event).is_empty());
    }
}

#[test]
fn a_run_on_a_terminal_puts_it_back() {
    let (mut run, first) = Run::start(true, Some(target()));
    assert_eq!(
        first,
        vec![
            RunAction::EnableRawMode,
            RunAction::ForwardStdin,
            RunAction::Tee(SinkKind::Stdout),
            RunAction::Handle(HandlerKind::Interrupt),
            RunAction::Handle(HandlerKind::Terminate),
            RunAction::Handle(HandlerKind::WindowChange),
            RunAction::WatchPipe,
            RunAction::Wait,
        ]
    );
    assert_eq!(
        run.step(RunEvent::Resized(Some((50, 132)))),
        vec![RunAction::Resize {
            rows: 50,
            cols: 132
        }]
    );
    assert!(run.step(RunEvent::Resized(None)).is_empty());
    run.step(RunEvent::Exited(status(0)));
    run.step(RunEvent::OutputDrained);
    assert_eq!(
        run.step(RunEvent::TriggersDrained),
        vec![RunAction::RestoreTerminal, RunAction::Exit(status(0))]
    );

    let (mut run, _) = Run::start(true, None);
    assert_eq!(
        run.step(RunEvent::WaitFailed),
        vec![RunAction::RestoreTerminal, RunAction::Abandon]
    );
}

#[test]
fn signals_are_passed_on_once_and_remembered() {
    let (mut run, _) = Run::start(false, Some(target()));
    let forward = |signal: Forwarded| {
        vec![RunAction::Forward {
            target: target(),
            signal,
        }]
    };
    assert_eq!(run.step(RunEvent::Interrupt), forward(Forwarded::Interrupt));
    assert!(run.step(RunEvent::Interrupt).is_empty());
    assert_eq!(run.step(RunEvent::Terminate), forward(Forwarded::Terminate));
    assert_eq!(
        run.step(RunEvent::PipeBroken),
        forward(Forwarded::BrokenPipe)
    );
    assert!(run.step(RunEvent::PipeBroken).is_empty());
    run.step(RunEvent::Exited(ExitStatus::from_raw(libc::SIGINT)));
    assert_eq!(
        run.step(RunEvent::OutputDrained)[0],
        RunAction::Finish {
            status: ExitStatus::from_raw(libc::SIGINT),
            shutdown_due_to_signal: true
        }
    );
}

#[test]
fn a_signal_while_draining_still_counts() {
    let (mut run, _) = Run::start(false, Some(target()));
    run.step(RunEvent::Exited(status(1)));
    // What is left of the command's group is told.
    assert_eq!(
        run.step(RunEvent::Terminate),
        vec![RunAction::Forward {
            target: target(),
            signal: Forwarded::Terminate
        }]
    );
    assert!(run.step(RunEvent::Terminate).is_empty());
    assert_eq!(
        run.step(RunEvent::OutputDrained)[0],
        RunAction::Finish {
            status: status(1),
            shutdown_due_to_signal: true
        }
    );
    // Once it is decided what the exit fires, nothing is passed on any more.
    assert!(run.step(RunEvent::Interrupt).is_empty());
    // A broken pipe is no signal to end, and a late one is not passed on.
    let (mut run, _) = Run::start(false, Some(target()));
    run.step(RunEvent::Exited(status(1)));
    assert!(run.step(RunEvent::PipeBroken).is_empty());
    assert_eq!(
        run.step(RunEvent::OutputDrained)[0],
        RunAction::Finish {
            status: status(1),
            shutdown_due_to_signal: false
        }
    );
}

#[test]
fn without_a_target_nothing_is_passed_on() {
    let (mut run, _) = Run::start(false, None);
    assert!(run.step(RunEvent::Interrupt).is_empty());
    assert!(run.shutdown.was_signal());
}

#[test]
fn shutdown_is_remembered() {
    let mut s = ShutdownState::default();
    assert!(!s.was_signal());
    s.signal();
    assert!(s.was_signal());
    s.signal();
    assert!(s.was_signal());
}

#[test]
fn targets_are_processes_or_groups() {
    assert_eq!(
        forward_signal(target(), Forwarded::Interrupt),
        (-4242, libc::SIGINT)
    );
    let alone = SignalTarget::new(Some(4242), false).expect("a child");
    assert_eq!(
        forward_signal(alone, Forwarded::Terminate),
        (4242, libc::SIGTERM)
    );
    assert_eq!(
        forward_signal(alone, Forwarded::BrokenPipe),
        (4242, libc::SIGPIPE)
    );
    for none in [None, Some(0), Some(1), Some(1 << 31), Some(u32::MAX)] {
        assert_eq!(SignalTarget::new(none, true), None);
    }
    assert_eq!(
        SignalTarget::new(Some(i32::MAX as u32), false).map(|t| t.pid),
        Some(i32::MAX)
    );
}

#[test]
fn resizing_is_for_terminals() {
    assert_eq!(
        install_handlers(false),
        vec![HandlerKind::Interrupt, HandlerKind::Terminate]
    );
    assert_eq!(install_handlers(true).len(), 3);
    let (mut run, _) = Run::start(false, None);
    assert!(run.step(RunEvent::Resized(Some((1, 2)))).is_empty());
}

#[test]
fn both_streams_have_to_be_terminals() {
    assert!(parent_is_tty(true, true));
    assert!(!parent_is_tty(true, false));
    assert!(!parent_is_tty(false, true));
    assert!(use_pty(false, true));
    assert!(!use_pty(true, true));
    assert!(!use_pty(false, false));
    assert_eq!(current_size(Some((80, 24))), Some((24, 80)));
    assert_eq!(current_size(None), None);
}

#[test]
fn commands_are_planned() {
    let cmd = || vec!["npm".to_string(), "run".to_string(), "dev".to_string()];
    match spawn(cmd(), true, None, false, true) {
        Ok(SpawnPlan::Pty {
            program,
            args,
            rows,
            cols,
            term,
        }) => {
            assert_eq!(program, "npm");
            assert_eq!(args, ["run", "dev"]);
            assert_eq!((rows, cols), (24, 80));
            assert_eq!(term.as_deref(), Some("xterm-256color"));
        }
        other => panic!("{other:?}"),
    }
    match spawn(cmd(), true, Some((40, 100)), true, true) {
        Ok(SpawnPlan::Pty {
            rows, cols, term, ..
        }) => {
            assert_eq!((rows, cols), (40, 100));
            assert_eq!(term, None);
        }
        other => panic!("{other:?}"),
    }
    for stdin_is_terminal in [false, true] {
        match spawn(cmd(), false, None, false, stdin_is_terminal) {
            Ok(SpawnPlan::Pipes {
                program,
                args,
                own_group,
            }) => {
                assert_eq!(program, "npm");
                assert_eq!(args, ["run", "dev"]);
                assert_eq!(own_group, !stdin_is_terminal);
            }
            other => panic!("{other:?}"),
        }
    }
    match spawn(Vec::<String>::new(), true, None, false, true) {
        Err(e) => assert_eq!(e.message(), "no command given to wrap"),
        Ok(plan) => panic!("{plan:?}"),
    }
}

#[test]
fn the_terminal_is_released_once() {
    let mut guard = RawModeGuard::enable(true);
    assert!(guard.release());
    assert!(!guard.release());
    let mut guard = RawModeGuard::enable(false);
    assert!(!guard.release());
}
