//! Session management for interactive shells that run behind pseudo-terminals.

pub mod error;
pub mod events;
pub mod open;
pub mod reader;
pub mod registry;
pub mod size;
pub mod text;
