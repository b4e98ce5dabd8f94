//! Control plane for a persistent desktop-shell process.
//!
//! The shell exposes always-on overlay surfaces (a top bar, a side panel,
//! a launcher) whose visibility is driven by short text commands arriving
//! over a local control channel.  This crate holds the verified core of
//! that control plane: the command translator, the visibility state
//! machine with its debounced launcher teardown, and the ordered
//! application of commands by a single consumer.  It also holds the
//! weather report model that the top bar renders.

pub mod clock;
pub mod command;
pub mod search;
pub mod state;
pub mod text;
pub mod weather;
