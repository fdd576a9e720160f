//! The key-event-driven core of an interactive, line-oriented command shell.
//!
//! The crate holds the decisions of the shell and none of its input or output:
//! a caller reads key events from the terminal, hands each one to
//! [`shell::Shell::process_keypress`], performs the terminal operations that
//! come back, runs a submitted command line itself and returns what the command
//! printed to [`shell::Shell::finish_command`].

pub mod error;
pub mod key;
pub mod laws;
pub mod reader;
pub mod shell;
pub mod std_text;
pub mod terminal;
pub mod text;
