//! Verified core of a tool that resets the identifiers a Cursor editor
//! installation stores about the machine it runs on.

pub mod text;
pub mod models;
pub mod config;
pub mod process;
pub mod registry;
pub mod utils;
pub mod commands;
