//! smited-watch: wrap a command, scan its output, decide which haptic triggers to fire.

pub mod buffer;
pub mod cli;
pub mod client;
pub mod config;
pub mod debounce;
pub mod decode;
pub mod error;
pub mod exit;
pub mod launch;
pub mod regexes;
pub mod scan;
pub mod scan_laws;
pub mod text;
pub mod time;
pub mod trigger;
pub mod wrap;
