//! The terminal interface.

pub mod edit_laws;
pub mod editor;
pub mod laws;
pub mod lines;
pub mod model_fetch;
pub mod notice;
pub mod runtime_actions;
pub mod screen;
pub mod text_edit;
pub mod ui;
pub mod webdav;
