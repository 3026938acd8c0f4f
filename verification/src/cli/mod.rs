//! The user interfaces.

pub mod commands;
pub mod tui;
