//! Verified core of a Discord bot: permission levels, cooldowns, the command
//! registry, wallet bookkeeping and the text that the bot answers with.
pub mod bot_core;
pub mod cli;
pub mod commands;
pub mod config;
pub mod events;
pub mod keyed;
pub mod permissions;
pub mod plugins;
pub mod registry;
pub mod text;
pub mod updater;
pub mod wallet_store;
