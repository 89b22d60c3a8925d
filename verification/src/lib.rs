//! A verified core for `catr`, a small `cat` that can number the lines it copies.
//!
//! `get_args` settles a `Config` from a command line. `run` tells what a run
//! under a `Config` writes when its sources are held in memory;
//! `numbering::LineNumberer` does the same one line at a time, for a caller
//! that reads its sources as it goes.

pub mod cli;
pub mod config;
pub mod format;
pub mod numbering;
pub mod run;
pub mod theorems;

pub use cli::get_args;
pub use config::Config;
pub use run::run;
