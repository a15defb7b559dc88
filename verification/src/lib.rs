//! Core logic of an interactive shell for querying tabular files: a command
//! grammar parser that turns one input line into a typed `Command`, a
//! line-editing prompt with append-only history and whole-line recall, and
//! the pure decisions of the dispatch loop (file-format sniffing and table
//! naming). Terminal I/O and the query engine live outside this crate.

pub mod args;
pub mod command_parser;
pub mod load;
pub mod prompt;
pub mod text;
