//! The command line: reading it, and what it prints.

pub mod args;
pub mod commands;
pub mod daemon;
pub mod util;
