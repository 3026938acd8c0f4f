//! What the terminal interface does on request.

pub mod mcp;
