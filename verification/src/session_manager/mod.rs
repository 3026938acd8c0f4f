//! The sessions of all agents.

pub mod cache;
pub mod cache_laws;
