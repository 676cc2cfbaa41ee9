//! The parent's input on its way to the command's terminal.
//!
//! Input is passed on byte by byte as it is typed: the parent's terminal is put in raw mode for
//! that, and back afterwards. What a forwarder does with what it read is decided by
//! [`after_read`](crate::wrap::tee::after_read) and
//! [`after_forward`](crate::wrap::tee::after_forward).

use vstd::prelude::*;

verus! {

/// How many bytes of input are read at once.
pub const STDIN_BUF: usize = 4096;

/// Whether the terminal was put in raw mode and has to be put back.
#[derive(Debug)]
pub struct RawModeGuard {
    enabled: bool,
}

impl RawModeGuard {
    /// Whether the terminal is in raw mode.
    pub closed spec fn is_raw(&self) -> bool {
        self.enabled
    }

    /// A guard for a terminal on which entering raw mode went well, or did not.
    pub fn enable(entered: bool) -> (r: RawModeGuard)
        ensures
            r.is_raw() == entered,
    {
        RawModeGuard { enabled: entered }
    }

    /// Whether the terminal has to be put back now. It is said at most once.
    pub fn release(&mut self) -> (r: bool)
        ensures
            r == old(self).is_raw(),
            !final(self).is_raw(),
    {
        let was = self.enabled;
        self.enabled = false;
        was
    }
}

} // verus!
