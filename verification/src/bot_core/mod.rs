//! The bot's core: commands, permissions, shared state and helpers.
pub mod command;
pub mod context;
pub mod data;
pub mod permissions;
pub mod plugin_api;
pub mod reply;
pub mod utils;

pub use permissions::{get_permission_level, has_permission, required_permission_message, PermissionLevel};
