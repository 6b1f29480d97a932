//! Editing engine for a single-line terminal prompt.
//!
//! The engine keeps the text being typed, measures it in terminal columns
//! grapheme by grapheme, and turns every edit into a short script of terminal
//! directives that repaints the line.
pub mod command;
pub mod directive;
pub mod segment;
pub mod terminal_buffer;

pub use command::Command;
pub use directive::Directive;
pub use terminal_buffer::{LayoutError, Outcome, TerminalBuffer};
