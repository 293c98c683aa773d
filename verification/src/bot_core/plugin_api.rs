//! What a plugin is given when it is created: the configuration and a way
//! to list the registered commands.
use crate::bot_core::command::CommandLister;
use crate::config::Config;
use std::sync::Arc;
use vstd::prelude::*;

verus! {

/// The configuration and the command list, shared with plugins. The list
/// is whatever lister the bot provides.
#[derive(Clone)]
pub struct PluginApi<L: CommandLister> {
    pub config: Config,
    pub command_lister: Arc<L>,
}

impl<L: CommandLister> PluginApi<L> {
    /// Bundles the configuration and the command list.
    pub fn new(config: Config, command_lister: Arc<L>) -> (r: Self)
        ensures
            r.config == config,
            r.command_lister == command_lister,
    {
        PluginApi { config, command_lister }
    }

    /// The configuration.
    pub fn config(&self) -> (r: &Config)
        ensures
            *r == self.config,
    {
        &self.config
    }

    /// The command list.
    pub fn command_lister(&self) -> (r: &Arc<L>)
        ensures
            *r == self.command_lister,
    {
        &self.command_lister
    }
}

} // verus!
