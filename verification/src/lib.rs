pub mod app_type;
pub mod cli;
pub mod daemon;
pub mod file_name;
pub mod json;
pub mod json_laws;
pub mod proxy;
pub mod services;
pub mod session_manager;
pub mod text;
pub mod text_laws;
pub mod text_set;
pub mod web;
