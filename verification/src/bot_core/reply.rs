//! What the bot answers a command with.
use vstd::prelude::*;

verus! {

/// The color of an error or a refusal shown as an embed.
pub const RED: u32 = 0xff0000;

/// A reply of the bot to a command.
pub enum Reply {
    /// A short notice: ephemeral for a slash command, an error message for a
    /// prefix command.
    Notice(String),
    /// An embed: its title, its description and its color.
    Embed(String, String, u32),
}

/// A reply as plain values.
pub enum ReplyView {
    Notice(Seq<char>),
    Embed(Seq<char>, Seq<char>, u32),
}

impl View for Reply {
    type V = ReplyView;

    open spec fn view(&self) -> ReplyView {
        match self {
            Reply::Notice(t) => ReplyView::Notice(t@),
            Reply::Embed(title, text, color) => ReplyView::Embed(title@, text@, *color),
        }
    }
}

/// Where a command was used, as far as the permission check needs it.
#[derive(Debug, Clone, Copy, PartialEq, Eq, Structural)]
pub enum Server {
    /// In a direct message, outside any server.
    Direct,
    /// In a server that the bot's cache does not hold.
    Unavailable,
    /// In a server with this owner; whether the caller holds the
    /// Administrator permission there.
    Known(u64, bool),
}

} // verus!
