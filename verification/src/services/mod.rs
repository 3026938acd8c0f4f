//! What runs behind the commands.

pub mod session_usage;
pub mod session_usage_codex;
pub mod session_usage_opencode;
