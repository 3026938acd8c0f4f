//! What the terminal interface shows.

pub mod editor;
pub mod mcp;
pub mod skills;
