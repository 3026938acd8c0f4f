//! The proxy between agents and model providers.

pub mod providers;
