//! Token usage out of the database of OpenCode.
//!
//! OpenCode keeps its messages in a database of its own. Completed messages of
//! assistants are billed; a session counts as read once all of its messages have
//! been written without an error and none of them is still under way.

pub mod batch;
pub mod message;
pub mod message_laws;
pub mod session_laws;
pub mod sessions;
pub mod sync;
pub mod sync_laws;
