//! The help plugin.
pub mod command;
