//! The wallet plugin.
pub mod actions;
pub mod command;
pub mod store;
