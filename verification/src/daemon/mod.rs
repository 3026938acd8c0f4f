//! The supervisor of the proxy workers, and how a database migration makes way
//! with one that is already running.

pub mod holders;
pub mod lifetime;
pub mod pids;
pub mod quiesce;
pub mod quiesce_laws;
pub mod resume_plan;
