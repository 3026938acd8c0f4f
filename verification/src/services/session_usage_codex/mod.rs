//! Token usage out of the session logs of Codex.
//!
//! A session log is a file of JSON lines. Its `token_count` events carry running
//! totals; what is billed is how much they grow. A log that was forked from
//! another one begins with a replay of it, which was billed before and is left
//! out.

pub mod file_sync;
pub mod meta;
pub mod model;
pub mod pending;
pub mod replay;
pub mod rollout;
pub mod scan;
pub mod scan_laws;
pub mod sync;
pub mod sync_laws;
pub mod tokens;
