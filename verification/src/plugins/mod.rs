//! The bot's plugins, and how they are loaded into the registry.
pub mod help;
pub mod wallet;

use crate::bot_core::command::CommandLister;
use crate::bot_core::plugin_api::PluginApi;
use crate::plugins::help::command::{create, Help};
use crate::plugins::wallet::command::Wallet;
use crate::registry::{register_prefix_spec, Registry};
use crate::text::{lowercase, owned, str_views};
use std::sync::Arc;
use vstd::prelude::*;

verus! {

/// The line that reports a loaded plugin.
pub open spec fn loaded_text(name: Seq<char>, version: Seq<char>) -> Seq<char> {
    "Loaded plugin "@ + name + " v"@ + version + " 📦"@
}

fn loaded_message(name: &str, version: &str) -> (r: String)
    ensures
        r@ == loaded_text(name@, version@),
{
    let mut r = owned("Loaded plugin ");
    r.append(name);
    r.append(" v");
    r.append(version);
    r.append(" 📦");
    r
}

/// The plugins once loaded, and the lines that report them.
pub struct Loaded<L: CommandLister> {
    pub wallet: Wallet,
    pub help: Arc<Help<L>>,
    pub messages: Vec<String>,
}

/// Loads the wallet and the help plugins, in that order, registering them
/// under the handles `wallet_handle` and `help_handle`.
pub fn register_commands<L: CommandLister>(
    registry: &mut Registry,
    api: PluginApi<L>,
    wallet_handle: usize,
    help_handle: usize,
) -> (r: Loaded<L>)
    ensures
        final(registry).command_map() == old(registry).command_map().insert(
            lowercase("wallet"@),
            wallet_handle,
        ).insert(lowercase("help"@), help_handle),
        final(registry).prefix_view() == register_prefix_spec(
            register_prefix_spec(
                old(registry).prefix_view(),
                "wallet"@,
                Some("wallet"@),
                seq!["w"@, "bal"@, "balance"@],
                wallet_handle,
            ),
            "help"@,
            Some("help"@),
            seq!["h"@, "commands"@],
            help_handle,
        ),
        r.help.api == api,
        r.messages@.len() == 2,
        r.messages@[0]@ == loaded_text("wallet"@, "1.0.0"@),
        r.messages@[1]@ == loaded_text("help"@, "1.0.0"@),
{
    let wallet = Wallet;
    let wallet_aliases = wallet.aliases();
    assert(str_views(wallet_aliases@) =~= seq!["w"@, "bal"@, "balance"@]);
    registry.register(wallet.name(), wallet.prefix(), wallet_aliases.as_slice(), wallet_handle);
    let mut messages: Vec<String> = Vec::new();
    messages.push(loaded_message(wallet.name(), wallet.version()));
    let help = create(api);
    let help_aliases = help.aliases();
    assert(str_views(help_aliases@) =~= seq!["h"@, "commands"@]);
    registry.register(help.name(), help.prefix(), help_aliases.as_slice(), help_handle);
    messages.push(loaded_message(help.name(), help.version()));
    Loaded { wallet, help, messages }
}

} // verus!
