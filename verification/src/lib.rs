//! Verified core of a 1Password client: vault and item models, search and
//! ranking, the vault browser's state machine, key bindings, and the
//! decisions behind the command-line, MCP and backend layers.

pub mod text;
pub mod find;
pub mod vault;
pub mod widgets;
pub mod config;
pub mod rank;
pub mod render;
pub mod input;
pub mod api;
pub mod lookup;
pub mod scripting;
pub mod clipboard;
pub mod control;
pub mod config_view;
pub mod laws;
