//! The commands of the command line.

pub mod config_openclaw;
pub mod hermes;
pub mod laws;
pub mod report;
pub mod web;
