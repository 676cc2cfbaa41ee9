//! How the wrapped command ended, and the exit code that this makes.
//!
//! A command that exited gives its own code. One that a signal ended gives 128 and the signal's
//! number, as a shell does.

use vstd::prelude::*;

use crate::text::{parse_i32, str_eq, strip_prefix};

verus! {

/// How a process ended: with a code, or by a signal.
#[derive(Debug, Clone, Copy, PartialEq, Eq, Structural)]
pub struct ExitStatus {
    /// The code that it exited with.
    pub code: Option<i32>,
    /// The signal that ended it.
    pub signal: Option<i32>,
}

/// The exit code in a wait status.
pub open spec fn waited_code(raw: i32) -> Option<i32> {
    if raw & 0x7f == 0 {
        Some((raw >> 8) & 0xff)
    } else {
        None
    }
}

/// The signal in a wait status.
pub open spec fn waited_signal(raw: i32) -> Option<i32> {
    if raw & 0x7f != 0 && raw & 0x7f != 0x7f {
        Some(raw & 0x7f)
    } else {
        None
    }
}

impl ExitStatus {
    /// Read a wait status: the signal stands in the low seven bits; where they are zero, the code
    /// stands in the eight bits above the lowest byte.
    pub fn from_raw(raw: i32) -> (r: ExitStatus)
        ensures
            r.code == waited_code(raw),
            r.signal == waited_signal(raw),
    {
        let low: i32 = raw & 0x7f;
        if low == 0 {
            ExitStatus { code: Some((raw >> 8) & 0xff), signal: None }
        } else if low != 0x7f {
            ExitStatus { code: None, signal: Some(low) }
        } else {
            ExitStatus { code: None, signal: None }
        }
    }

    /// The code that the process exited with.
    pub fn code(&self) -> (r: Option<i32>)
        ensures
            r == self.code,
    {
        self.code
    }

    /// The signal that ended the process.
    pub fn signal(&self) -> (r: Option<i32>)
        ensures
            r == self.signal,
    {
        self.signal
    }

    /// Whether the process exited with code zero.
    pub fn success(&self) -> (r: bool)
        ensures
            r == (self.code == Some(0i32)),
    {
        match self.code {
            Some(code) => code == 0,
            None => false,
        }
    }
}

/// How a process on a pseudo terminal ended.
#[derive(Debug, Clone)]
pub struct PtyStatus {
    /// The code that it exited with; 1 where a signal ended it.
    pub exit_code: u32,
    /// How the system describes the signal that ended it.
    pub signal: Option<String>,
}

/// The numbers of the signals that a wrapped command may die from.
#[derive(Debug, Clone, Copy)]
pub struct SignalNumbers {
    pub hup: i32,
    pub int: i32,
    pub quit: i32,
    pub ill: i32,
    pub trap: i32,
    pub abrt: i32,
    pub bus: i32,
    pub fpe: i32,
    pub kill: i32,
    pub usr1: i32,
    pub segv: i32,
    pub usr2: i32,
    pub pipe: i32,
    pub alrm: i32,
    pub term: i32,
}

impl SignalNumbers {
    /// What holds of the numbers on every system: most are the same everywhere, the others have one
    /// of a few values, which go together.
    pub open spec fn usual(self) -> bool {
        &&& self.hup == 1
        &&& self.int == 2
        &&& self.quit == 3
        &&& self.ill == 4
        &&& self.abrt == 6
        &&& self.fpe == 8
        &&& self.kill == 9
        &&& self.segv == 11
        &&& self.alrm == 14
        &&& self.term == 15
        &&& {
            // Haiku
            ||| self.pipe == 7 && self.trap == 22 && self.bus == 30 && self.usr1 == 18 && self.usr2
                == 19
            ||| {
                &&& self.pipe == 13
                &&& self.trap == 5
                &&& {
                    // Linux and the like
                    ||| self.bus == 7 && self.usr1 == 10 && self.usr2 == 12
                    // the BSDs, macOS and the like
                    ||| self.bus == 10 && self.usr1 == 30 && self.usr2 == 31
                    // Solaris, Linux on MIPS and the like
                    ||| self.bus == 10 && self.usr1 == 16 && self.usr2 == 17
                    // RTEMS
                    ||| self.bus == 10 && self.usr1 == 25 && self.usr2 == 26
                }
            }
        }
    }
}

/// The `SIG` constants of `libc`, for the system that the program is built for. The numbers that
/// all systems share are stated, and which values the others have together. Which of the systems
/// it is stays open.
#[verifier::external_body]
pub(crate) fn host_signals() -> (r: SignalNumbers)
    ensures
        r.usual(),
{
    SignalNumbers {
        hup: libc::SIGHUP, int: libc::SIGINT, quit: libc::SIGQUIT, ill: libc::SIGILL,
        trap: libc::SIGTRAP, abrt: libc::SIGABRT, bus: libc::SIGBUS, fpe: libc::SIGFPE,
        kill: libc::SIGKILL, usr1: libc::SIGUSR1, segv: libc::SIGSEGV, usr2: libc::SIGUSR2,
        pipe: libc::SIGPIPE, alrm: libc::SIGALRM, term: libc::SIGTERM,
    }
}

/// The signal that a system describes as `name`: by its usual description, or as `Signal` and its
/// number.
pub open spec fn signum_named(n: SignalNumbers, name: Seq<char>) -> Option<i32> {
    if name == "Hangup"@ {
        Some(n.hup)
    } else if name == "Interrupt"@ || name == "Interrupted"@ {
        Some(n.int)
    } else if name == "Quit"@ {
        Some(n.quit)
    } else if name == "Illegal instruction"@ {
        Some(n.ill)
    } else if name == "Trace/breakpoint trap"@ || name == "Trace/BPT trap"@ {
        Some(n.trap)
    } else if name == "Aborted"@ || name == "Abort trap"@ {
        Some(n.abrt)
    } else if name == "Bus error"@ {
        Some(n.bus)
    } else if name == "Floating point exception"@ || name == "Arithmetic exception"@ {
        Some(n.fpe)
    } else if name == "Killed"@ {
        Some(n.kill)
    } else if name == "User defined signal 1"@ {
        Some(n.usr1)
    } else if name == "Segmentation fault"@ {
        Some(n.segv)
    } else if name == "User defined signal 2"@ {
        Some(n.usr2)
    } else if name == "Broken pipe"@ {
        Some(n.pipe)
    } else if name == "Alarm clock"@ {
        Some(n.alrm)
    } else if name == "Terminated"@ {
        Some(n.term)
    } else if "Signal "@.is_prefix_of(name) {
        crate::text::parsed_i32(name.skip("Signal "@.len() as int))
    } else {
        None
    }
}

/// The signal that a system with the signal numbers `n` describes as `name`.
pub fn signal_name_to_signum_in(name: &str, n: &SignalNumbers) -> (r: Option<i32>)
    ensures
        r == signum_named(*n, name@),
{
    if str_eq(name, "Hangup") {
        Some(n.hup)
    } else if str_eq(name, "Interrupt") || str_eq(name, "Interrupted") {
        Some(n.int)
    } else if str_eq(name, "Quit") {
        Some(n.quit)
    } else if str_eq(name, "Illegal instruction") {
        Some(n.ill)
    } else if str_eq(name, "Trace/breakpoint trap") || str_eq(name, "Trace/BPT trap") {
        Some(n.trap)
    } else if str_eq(name, "Aborted") || str_eq(name, "Abort trap") {
        Some(n.abrt)
    } else if str_eq(name, "Bus error") {
        Some(n.bus)
    } else if str_eq(name, "Floating point exception") || str_eq(name, "Arithmetic exception") {
        Some(n.fpe)
    } else if str_eq(name, "Killed") {
        Some(n.kill)
    } else if str_eq(name, "User defined signal 1") {
        Some(n.usr1)
    } else if str_eq(name, "Segmentation fault") {
        Some(n.segv)
    } else if str_eq(name, "User defined signal 2") {
        Some(n.usr2)
    } else if str_eq(name, "Broken pipe") {
        Some(n.pipe)
    } else if str_eq(name, "Alarm clock") {
        Some(n.alrm)
    } else if str_eq(name, "Terminated") {
        Some(n.term)
    } else {
        match strip_prefix(name, "Signal ") {
            Some(number) => parse_i32(&number),
            None => None,
        }
    }
}

/// The signal that this system describes as `name`.
pub fn signal_name_to_signum(name: &str) -> (r: Option<i32>)
    ensures
        exists|n: SignalNumbers| n.usual() && r == #[trigger] signum_named(n, name@),
{
    let n = host_signals();
    signal_name_to_signum_in(name, &n)
}

/// The wait status of a process on a pseudo terminal: that of a signal where its description is
/// known, else that of its exit code.
pub open spec fn pty_wait_status(n: SignalNumbers, s: PtyStatus) -> i32 {
    match s.signal {
        Some(name) => match signum_named(n, name@) {
            Some(signum) => signum & 0x7f,
            None => (s.exit_code as i32) << 8,
        },
        None => (s.exit_code as i32) << 8,
    }
}

/// How a process on a pseudo terminal ended, on a system with the signal numbers `n`.
pub fn portable_status_to_exit_status_in(s: &PtyStatus, n: &SignalNumbers) -> (r: ExitStatus)
    ensures
        r.code == waited_code(pty_wait_status(*n, *s)),
        r.signal == waited_signal(pty_wait_status(*n, *s)),
{
    if let Some(name) = &s.signal {
        if let Some(signum) = signal_name_to_signum_in(name.as_str(), n) {
            return ExitStatus::from_raw(signum & 0x7f);
        }
    }
    ExitStatus::from_raw((s.exit_code as i32) << 8)
}

/// How a process on a pseudo terminal ended.
pub fn portable_status_to_exit_status(s: &PtyStatus) -> (r: ExitStatus)
    ensures
        exists|n: SignalNumbers|
            n.usual() && r.code == waited_code(#[trigger] pty_wait_status(n, *s)) && r.signal
                == waited_signal(pty_wait_status(n, *s)),
{
    let n = host_signals();
    portable_status_to_exit_status_in(s, &n)
}

/// How a process on a pseudo terminal of Windows ended. There an exit code has 32 bits, and all of
/// them are kept; no signal ends a process.
pub fn windows_status_to_exit_status(s: &PtyStatus) -> (r: ExitStatus)
    ensures
        r.code == Some(s.exit_code as i32),
        r.signal is None,
{
    ExitStatus { code: Some(s.exit_code as i32), signal: None }
}

/// The exit code for `status`: its own; else 128 and the signal; else 1.
pub open spec fn propagated(status: ExitStatus) -> int {
    match (status.code, status.signal) {
        (Some(code), _) => code as int,
        (None, Some(signal)) => 128 + signal,
        (None, None) => 1,
    }
}

/// The exit code to end with where the wrapped command ended with `status`.
pub fn propagate_exit_code(status: ExitStatus) -> (r: i32)
    requires
        i32::MIN <= propagated(status) <= i32::MAX,
    ensures
        r == propagated(status),
{
    if let Some(code) = status.code {
        return code;
    }
    if let Some(signal) = status.signal {
        return 128 + signal;
    }
    1
}

/// The wait status of an exit code on a pseudo terminal gives back its low eight bits, and no
/// signal; a code up to 255 comes back unchanged.
pub proof fn law_pty_exit_code_survives(n: SignalNumbers, s: PtyStatus)
    requires
        s.signal is None || signum_named(n, s.signal->0@) is None,
    ensures
        waited_code(pty_wait_status(n, s)) == Some((s.exit_code & 0xff) as i32),
        waited_signal(pty_wait_status(n, s)) is None,
        s.exit_code <= 255 ==> waited_code(pty_wait_status(n, s)) == Some(s.exit_code as i32),
{
    let c = s.exit_code;
    assert(((c as i32) << 8) & 0x7f == 0) by (bit_vector);
    assert((((c as i32) << 8) >> 8) & 0xff == (c & 0xff) as i32) by (bit_vector);
    assert(c <= 255 ==> (c & 0xff) == c) by (bit_vector);
}

/// On Windows an exit code comes back with all of its bits.
pub proof fn law_windows_exit_code_survives(s: PtyStatus, status: ExitStatus)
    requires
        status.code == Some(s.exit_code as i32),
    ensures
        propagated(status) as i32 as u32 == s.exit_code,
        s.exit_code <= i32::MAX ==> propagated(status) == s.exit_code,
{
    let c = s.exit_code;
    assert(c as i32 as u32 == c) by (bit_vector);
}

/// A process on a pseudo terminal that died from a signal whose description is known makes the
/// exit code 128 and the signal's number.
pub proof fn law_pty_signal_survives(n: SignalNumbers, s: PtyStatus, signum: i32, status: ExitStatus)
    requires
        s.signal is Some,
        signum_named(n, s.signal->0@) == Some(signum),
        1 <= signum <= 126,
        status.code == waited_code(pty_wait_status(n, s)),
        status.signal == waited_signal(pty_wait_status(n, s)),
    ensures
        status.code is None,
        status.signal == Some(signum),
        propagated(status) == 128 + signum,
{
    assert(1 <= signum <= 126 ==> (signum & 0x7f) == signum && (signum & 0x7f) & 0x7f == signum)
        by (bit_vector);
}

/// The exit code of a process stands in the second byte of its wait status, and the signal that
/// ended it in the low seven bits, with or without the bit of a core dump above them. There is one
/// of them, never both.
pub proof fn law_wait_statuses_are_read(code: i32, signal: i32, core: bool)
    requires
        0 <= code <= 255,
        1 <= signal <= 126,
    ensures
        waited_code((code * 256) as i32) == Some(code),
        waited_signal((code * 256) as i32) is None,
        waited_code((signal + if core {
            128int
        } else {
            0
        }) as i32) is None,
        waited_signal((signal + if core {
            128int
        } else {
            0
        }) as i32) == Some(signal),
{
    let c = (code * 256) as i32;
    assert(c & 0x7f == 0 && (c >> 8) & 0xff == code) by (bit_vector)
        requires
            0 <= code <= 255,
            c == code * 256,
    ;
    let plain = signal;
    assert(plain & 0x7f == plain) by (bit_vector)
        requires
            1 <= plain <= 126,
    ;
    let dumped = (signal + 128) as i32;
    assert(dumped & 0x7f == signal) by (bit_vector)
        requires
            1 <= signal <= 126,
            dumped == signal + 128,
    ;
}

/// A wait status never gives both a code and a signal, a code is a byte, and a signal is not zero.
pub proof fn law_a_wait_status_is_one_of_both(raw: i32)
    ensures
        waited_code(raw) is None || waited_signal(raw) is None,
        waited_code(raw) matches Some(code) ==> 0 <= code <= 255 && raw % 128 == 0,
        waited_code(raw) is None ==> raw % 128 != 0,
        waited_signal(raw) matches Some(signal) ==> 1 <= signal <= 126 && raw % 128 == signal,
        waited_signal(raw) is None ==> raw % 128 == 0 || raw % 128 == 127,
{
    assert(0 <= ((raw >> 8) & 0xff) <= 255) by (bit_vector);
    assert(0 <= (raw & 0x7f) <= 127) by (bit_vector);
    assert(raw >= 0 ==> (raw & 0x7f) == raw % 128) by (bit_vector);
    let low = raw & 0x7f;
    let high = raw >> 7;
    assert(raw == high * 128 + low) by (bit_vector)
        requires
            low == raw & 0x7f,
            high == raw >> 7,
    ;
    assert(raw % 128 == low) by (nonlinear_arith)
        requires
            raw == high * 128 + low,
            0 <= low <= 127,
    ;
}

/// A command's exit code is passed on unchanged; a signal makes 128 and its number; what is neither
/// makes 1.
pub proof fn law_exit_codes_are_passed_on(status: ExitStatus)
    ensures
        status.code matches Some(code) ==> propagated(status) == code,
        status.code is None ==> (status.signal matches Some(signal) ==> propagated(status) == 128
            + signal),
        status.code is None && status.signal is None ==> propagated(status) == 1,
{
}

/// A process on a pseudo terminal that died from a known signal has the wait status of that signal;
/// every other one that of its exit code.
pub proof fn law_pty_wait_statuses(n: SignalNumbers, s: PtyStatus)
    ensures
        s.signal is None ==> pty_wait_status(n, s) == (s.exit_code as i32) << 8,
        s.signal matches Some(name) ==> (signum_named(n, name@) is None ==> pty_wait_status(n, s)
            == (s.exit_code as i32) << 8),
        s.signal matches Some(name) ==> (signum_named(n, name@) matches Some(signum)
            ==> pty_wait_status(n, s) == signum & 0x7f),
{
}

/// Each description stands for its own signal.
pub proof fn law_signals_have_names(n: SignalNumbers)
    ensures
        signum_named(n, "Hangup"@) == Some(n.hup),
        signum_named(n, "Interrupt"@) == Some(n.int),
        signum_named(n, "Interrupted"@) == Some(n.int),
        signum_named(n, "Quit"@) == Some(n.quit),
        signum_named(n, "Illegal instruction"@) == Some(n.ill),
        signum_named(n, "Trace/breakpoint trap"@) == Some(n.trap),
        signum_named(n, "Trace/BPT trap"@) == Some(n.trap),
        signum_named(n, "Aborted"@) == Some(n.abrt),
        signum_named(n, "Abort trap"@) == Some(n.abrt),
        signum_named(n, "Bus error"@) == Some(n.bus),
        signum_named(n, "Floating point exception"@) == Some(n.fpe),
        signum_named(n, "Arithmetic exception"@) == Some(n.fpe),
        signum_named(n, "Killed"@) == Some(n.kill),
        signum_named(n, "User defined signal 1"@) == Some(n.usr1),
        signum_named(n, "Segmentation fault"@) == Some(n.segv),
        signum_named(n, "User defined signal 2"@) == Some(n.usr2),
        signum_named(n, "Broken pipe"@) == Some(n.pipe),
        signum_named(n, "Alarm clock"@) == Some(n.alrm),
        signum_named(n, "Terminated"@) == Some(n.term),
{
    reveal_strlit("Hangup");
    reveal_strlit("Interrupt");
    reveal_strlit("Interrupted");
    reveal_strlit("Quit");
    reveal_strlit("Illegal instruction");
    reveal_strlit("Trace/breakpoint trap");
    reveal_strlit("Trace/BPT trap");
    reveal_strlit("Aborted");
    reveal_strlit("Abort trap");
    reveal_strlit("Bus error");
    reveal_strlit("Floating point exception");
    reveal_strlit("Arithmetic exception");
    reveal_strlit("Killed");
    reveal_strlit("User defined signal 1");
    reveal_strlit("Segmentation fault");
    reveal_strlit("User defined signal 2");
    reveal_strlit("Broken pipe");
    reveal_strlit("Alarm clock");
    reveal_strlit("Terminated");
    assert("Hangup"@.len() == 6);
    assert("Interrupt"@.len() == 9);
    assert("Interrupted"@.len() == 11);
    assert("Quit"@.len() == 4);
    assert("Illegal instruction"@.len() == 19);
    assert("Trace/breakpoint trap"@.len() == 21);
    assert("Trace/BPT trap"@.len() == 14);
    assert("Aborted"@.len() == 7);
    assert("Abort trap"@.len() == 10);
    assert("Bus error"@.len() == 9);
    assert("Floating point exception"@.len() == 24);
    assert("Arithmetic exception"@.len() == 20);
    assert("Killed"@.len() == 6);
    assert("User defined signal 1"@.len() == 21);
    assert("Segmentation fault"@.len() == 18);
    assert("User defined signal 2"@.len() == 21);
    assert("Broken pipe"@.len() == 11);
    assert("Alarm clock"@.len() == 11);
    assert("Terminated"@.len() == 10);
    assert("Bus error"@[0] != "Interrupt"@[0]);
    assert("Killed"@[0] != "Hangup"@[0]);
    assert("User defined signal 1"@[0] != "Trace/breakpoint trap"@[0]);
    assert("User defined signal 2"@[0] != "Trace/breakpoint trap"@[0]);
    assert("User defined signal 2"@[20] != "User defined signal 1"@[20]);
    assert("Broken pipe"@[0] != "Interrupted"@[0]);
    assert("Alarm clock"@[0] != "Interrupted"@[0]);
    assert("Alarm clock"@[0] != "Broken pipe"@[0]);
    assert("Terminated"@[0] != "Abort trap"@[0]);
}

/// A numbered description stands for that number, whichever it is.
pub proof fn law_signals_have_numbers(n: SignalNumbers, number: Seq<char>)
    ensures
        signum_named(n, "Signal "@ + number) == crate::text::parsed_i32(number),
{
    reveal_strlit("Signal ");
    reveal_strlit("Hangup");
    reveal_strlit("Interrupt");
    reveal_strlit("Interrupted");
    reveal_strlit("Quit");
    reveal_strlit("Illegal instruction");
    reveal_strlit("Trace/breakpoint trap");
    reveal_strlit("Trace/BPT trap");
    reveal_strlit("Aborted");
    reveal_strlit("Abort trap");
    reveal_strlit("Bus error");
    reveal_strlit("Floating point exception");
    reveal_strlit("Arithmetic exception");
    reveal_strlit("Killed");
    reveal_strlit("User defined signal 1");
    reveal_strlit("Segmentation fault");
    reveal_strlit("User defined signal 2");
    reveal_strlit("Broken pipe");
    reveal_strlit("Alarm clock");
    reveal_strlit("Terminated");
    let name = "Signal "@ + number;
    assert(name.skip(7) =~= number);
    assert("Signal "@.is_prefix_of(name));
    assert(name[0] == 'S' && name[1] == 'i');
}

/// What is neither a known description nor a number stands for no signal.
pub proof fn law_other_names_are_no_signals(n: SignalNumbers, name: Seq<char>)
    requires
        name != "Hangup"@,
        name != "Interrupt"@,
        name != "Interrupted"@,
        name != "Quit"@,
        name != "Illegal instruction"@,
        name != "Trace/breakpoint trap"@,
        name != "Trace/BPT trap"@,
        name != "Aborted"@,
        name != "Abort trap"@,
        name != "Bus error"@,
        name != "Floating point exception"@,
        name != "Arithmetic exception"@,
        name != "Killed"@,
        name != "User defined signal 1"@,
        name != "Segmentation fault"@,
        name != "User defined signal 2"@,
        name != "Broken pipe"@,
        name != "Alarm clock"@,
        name != "Terminated"@,
        !"Signal "@.is_prefix_of(name),
    ensures
        signum_named(n, name) is None,
{
}

} // verus!
