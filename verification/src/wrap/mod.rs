//! Wrapping a command: starting it, copying and scanning its output, firing, winding up.
//!
//! * [`spawn`]: on a pseudo terminal or on pipes
//! * [`tee`]: the output's way to the parent and to the scanner
//! * [`stdin`]: the input's way to the command
//! * [`signal`]: signals and where they go
//! * [`pipeline`]: from output bytes to requests
//! * [`run`]: the course of it all, and [`run_laws`] what holds of it
//! * [`status`]: how the command ended, and the exit code

use std::sync::Arc;

use vstd::prelude::*;

use crate::client::TriggerClient;
use crate::config::{OnExit, Pattern};
use crate::debounce::Debouncer;

pub mod pipeline;
pub mod run;
pub mod run_laws;
pub mod signal;
pub mod spawn;
pub mod status;
pub mod stdin;
pub mod tee;

verus! {

/// All that is needed to wrap a command. `A` is an argument of it, `C` a connection to the daemon.
pub struct WrapOptions<A, C> {
    /// The command and its arguments.
    pub cmd: Vec<A>,
    pub patterns: Arc<Vec<Pattern>>,
    /// One debouncer for each pattern.
    pub debouncers: Vec<Debouncer>,
    pub trigger_client: TriggerClient<C>,
    /// The backend of requests whose pattern names none.
    pub default_backend_id: String,
    pub on_exit: OnExit,
    /// Whether a pseudo terminal is never used.
    pub force_pipes: bool,
}

} // verus!
