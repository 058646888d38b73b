//! Launcher core for a list of configured remote hosts: placeholder
//! resolution, port handling, menu layout and connection planning.

pub mod config;
pub mod server;
pub mod text;
