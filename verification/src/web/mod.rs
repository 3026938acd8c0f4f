//! The local web dashboard.

pub mod dispatch;
pub mod handlers;
pub mod sync;
