//! Interaction core of a terminal front end for a container tool.
//!
//! The user names a resource kind, then a command, and, where the command
//! needs one, picks targets from the rows of the last output. This crate
//! holds the part of that which decides: the keybinding registry and the
//! authorization table ([`tocker`]), the row list with its cursor and marks
//! ([`rows`]), the text functions that find the identifier column
//! ([`text`]), and the state machine that ties them together ([`tui`]).
//! Reading keys, drawing and running the command are the caller's work.

pub mod error;
pub mod keys;
pub mod rows;
pub mod table;
pub mod text;
pub mod tocker;
pub mod tui;
