//! Declarative tmux workspace manager: a layout of windows and recursively
//! split panes is compiled into the ordered sequence of multiplexer commands
//! that builds it, with pane addressing proved consistent with the order in
//! which the multiplexer numbers panes as splits are applied.

pub mod args;
pub mod command;
pub mod compile;
pub mod config;
pub mod digits;
pub mod paths;
pub mod session;
