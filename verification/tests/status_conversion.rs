//! How a command ended, and the exit code that this makes.

use smited_watch::wrap::status::{
    portable_status_to_exit_status, propagate_exit_code, signal_name_to_signum,
    windows_status_to_exit_status, ExitStatus, PtyStatus,
};

fn converted(s: &portable_pty::ExitStatus) -> ExitStatus {
    portable_status_to_exit_status(&PtyStatus {
        exit_code: s.exit_code(),
        signal: s.signal().map(|name| name.to_string()),
    })
}

#[test]
fn signal_name_to_signum_maps_common_signals() {
    assert_eq!(signal_name_to_signum("Interrupt"), Some(libc::SIGINT));
    assert_eq!(signal_name_to_signum("Interrupted"), Some(libc::SIGINT));
    assert_eq!(signal_name_to_signum("Terminated"), Some(libc::SIGTERM));
    assert_eq!(signal_name_to_signum("Killed"), Some(libc::SIGKILL));
    assert_eq!(signal_name_to_signum("Hangup"), Some(libc::SIGHUP));
    assert_eq!(signal_name_to_signum("Quit"), Some(libc::SIGQUIT));
    assert_eq!(signal_name_to_signum("Aborted"), Some(libc::SIGABRT));
    assert_eq!(signal_name_to_signum("Abort trap"), Some(libc::SIGABRT));
    assert_eq!(signal_name_to_signum("Bus error"), Some(libc::SIGBUS));
    assert_eq!(
        signal_name_to_signum("Segmentation fault"),
        Some(libc::SIGSEGV)
    );
    assert_eq!(signal_name_to_signum("Broken pipe"), Some(libc::SIGPIPE));
    assert_eq!(signal_name_to_signum("Alarm clock"), Some(libc::SIGALRM));
    assert_eq!(signal_name_to_signum("Signal 31"), Some(31));
    assert_eq!(signal_name_to_signum("blah blah"), None);
}

#[test]
fn the_other_signals_have_names_too() {
    assert_eq!(
        signal_name_to_signum("Illegal instruction"),
        Some(libc::SIGILL)
    );
    for name in ["Trace/breakpoint trap", "Trace/BPT trap"] {
        assert_eq!(signal_name_to_signum(name), Some(libc::SIGTRAP));
    }
    for name in ["Floating point exception", "Arithmetic exception"] {
        assert_eq!(signal_name_to_signum(name), Some(libc::SIGFPE));
    }
    assert_eq!(
        signal_name_to_signum("User defined signal 1"),
        Some(libc::SIGUSR1)
    );
    assert_eq!(
        signal_name_to_signum("User defined signal 2"),
        Some(libc::SIGUSR2)
    );
}

#[test]
fn a_numbered_signal_needs_a_number() {
    assert_eq!(signal_name_to_signum("Signal +7"), Some(7));
    assert_eq!(signal_name_to_signum("Signal -7"), Some(-7));
    assert_eq!(signal_name_to_signum("Signal 007"), Some(7));
    assert_eq!(signal_name_to_signum("Signal "), None);
    assert_eq!(signal_name_to_signum("Signal"), None);
    assert_eq!(signal_name_to_signum("Signal 7 "), None);
    assert_eq!(signal_name_to_signum("Signal 2147483647"), Some(i32::MAX));
    assert_eq!(signal_name_to_signum("Signal -2147483648"), Some(i32::MIN));
    assert_eq!(signal_name_to_signum("Signal 2147483648"), None);
    assert_eq!(signal_name_to_signum("Signal -"), None);
}

#[test]
fn portable_status_to_exit_status_preserves_signal_for_sigint() {
    let portable = portable_pty::ExitStatus::with_signal("Interrupt");
    let status = converted(&portable);
    assert_eq!(
        status.signal(),
        Some(libc::SIGINT),
        "signal-killed PTY child should round-trip to a signalled status"
    );
    assert_eq!(
        status.code(),
        None,
        "signalled status must report code() = None so the caller can apply 128+signum"
    );
}

#[test]
fn portable_status_to_exit_status_preserves_signal_for_sigterm() {
    let portable = portable_pty::ExitStatus::with_signal("Terminated");
    let status = converted(&portable);
    assert_eq!(status.signal(), Some(libc::SIGTERM));
}

#[test]
fn portable_status_to_exit_status_passes_through_normal_exit() {
    let portable = portable_pty::ExitStatus::with_exit_code(7);
    let status = converted(&portable);
    assert_eq!(status.signal(), None);
    assert_eq!(status.code(), Some(7));
}

#[test]
fn portable_status_to_exit_status_unknown_signal_falls_back_to_exit_code() {
    let portable = portable_pty::ExitStatus::with_signal("XYZZY signal");
    let status = converted(&portable);
    assert_eq!(status.code(), Some(1));
}

#[test]
fn exit_codes_follow_the_shell() {
    let on_pty = |s: portable_pty::ExitStatus| propagate_exit_code(converted(&s));
    assert_eq!(on_pty(portable_pty::ExitStatus::with_exit_code(0)), 0);
    assert_eq!(on_pty(portable_pty::ExitStatus::with_exit_code(255)), 255);
    assert_eq!(on_pty(portable_pty::ExitStatus::with_exit_code(256)), 0);
    assert_eq!(on_pty(portable_pty::ExitStatus::with_signal("Interrupt")), 130);
    assert_eq!(on_pty(portable_pty::ExitStatus::with_signal("Killed")), 137);
    assert_eq!(on_pty(portable_pty::ExitStatus::with_signal("Terminated")), 143);
    assert_eq!(
        propagate_exit_code(ExitStatus {
            code: None,
            signal: None
        }),
        1
    );
}

#[test]
fn exit_code_propagates_nonzero() {
    assert_eq!(propagate_exit_code(ExitStatus::from_raw(7 << 8)), 7);
}

#[test]
fn wait_statuses_are_read_bit_by_bit() {
    let s = ExitStatus::from_raw(1 << 8);
    assert_eq!((s.code(), s.signal()), (Some(1), None));
    assert!(!s.success());
    let s = ExitStatus::from_raw(0);
    assert!(s.success());
    let s = ExitStatus::from_raw(libc::SIGKILL);
    assert_eq!((s.code(), s.signal()), (None, Some(libc::SIGKILL)));
    // A core dump sets the bit above the signal.
    let s = ExitStatus::from_raw(libc::SIGSEGV | 0x80);
    assert_eq!((s.code(), s.signal()), (None, Some(libc::SIGSEGV)));
    // A stopped process has neither.
    let s = ExitStatus::from_raw(0x137f);
    assert_eq!((s.code(), s.signal()), (None, None));
}

#[test]
fn windows_keeps_the_whole_exit_code() {
    let ended = |exit_code: u32| {
        propagate_exit_code(windows_status_to_exit_status(&PtyStatus {
            exit_code,
            signal: None,
        }))
    };
    assert_eq!(ended(3010), 3010);
    assert_eq!(ended(0), 0);
    assert_eq!(ended(0xC000_0005) as u32, 0xC000_0005);
}
