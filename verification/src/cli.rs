//! Command-line interface for hid-rgb-ctl.
//!
//! `lexer` is the command line as `lexopt` reads it, `args` what it asks for, `color` the colors on
//! it, and `command` what the subcommands do. `reading` and `telling` hold what can be relied on of
//! how a command line is read and of what the subcommands decide and say.

pub mod args;
pub mod color;
pub mod command;
pub mod lexer;
pub mod reading;
pub mod telling;
