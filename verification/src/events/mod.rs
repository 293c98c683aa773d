//! What the bot decides around every command, slash or prefix: which
//! message is a command, who may run it, the cooldown before it runs, and
//! what is recorded or answered after it ran.
use crate::bot_core::context::{check_cooldown_spec, remaining_spec, BotContext};
use crate::bot_core::permissions::{
    get_permission_level, has_permission, permission_level_spec, permission_name, permits,
    required_permission_message, PermissionLevel,
};
use crate::bot_core::reply::{Reply, ReplyView, Server, RED};
use crate::bot_core::utils::{duration_text, format_duration, format_error};
use crate::text::{chars_of, owned, push_range, split_whitespace, starts_with, views, words};
use vstd::prelude::*;

verus! {

/// How a command was used.
#[derive(Debug, Clone, Copy, PartialEq, Eq, Structural)]
pub enum Style {
    /// A slash command: notices and embeds go to the caller alone.
    Slash,
    /// A prefix command in a message: notices are sent as error messages.
    Prefix,
}

// ---------------------------------------------------------------------------
// Which message is a command
// ---------------------------------------------------------------------------

/// The command word and its arguments in a message: none when a bot wrote
/// it, when it does not start with the prefix, or when nothing but
/// whitespace follows the prefix.
pub open spec fn prefix_command_spec(author_is_bot: bool, content: Seq<char>, prefix: Seq<char>) -> Option<
    (Seq<char>, Seq<Seq<char>>),
> {
    if author_is_bot || !prefix.is_prefix_of(content) {
        None
    } else {
        let ws = words(content.skip(prefix.len() as int));
        if ws.len() == 0 {
            None
        } else {
            Some((ws[0], ws.drop_first()))
        }
    }
}

/// The command word and the arguments of a message, if it holds a command.
pub fn prefix_command(author_is_bot: bool, content: &str, prefix: &str) -> (r: Option<
    (String, Vec<String>),
>)
    ensures
        match r {
            Some((name, args)) => prefix_command_spec(author_is_bot, content@, prefix@) == Some(
                (name@, views(args@)),
            ),
            None => prefix_command_spec(author_is_bot, content@, prefix@) is None,
        },
{
    if author_is_bot || !starts_with(content, prefix) {
        return None;
    }
    let cs = chars_of(content);
    let plen = chars_of(prefix).len();
    let mut rest = String::new();
    push_range(&mut rest, cs.as_slice(), plen, cs.len());
    assert(rest@ =~= content@.skip(prefix@.len() as int));
    let mut ws = split_whitespace(rest.as_str());
    if ws.len() == 0 {
        return None;
    }
    let ghost all = views(ws@);
    let name = ws.remove(0);
    assert(views(ws@) =~= all.drop_first());
    Some((name, ws))
}

// ---------------------------------------------------------------------------
// Who may run a command
// ---------------------------------------------------------------------------

/// How a prefix command's refusal names a required level.
pub open spec fn prefix_level_name(required: PermissionLevel) -> Seq<char> {
    match required {
        PermissionLevel::Owner => "server owner"@,
        PermissionLevel::Admin => "server admin or owner"@,
        PermissionLevel::Member => "member"@,
    }
}

/// The refusal for a caller below the required level.
pub open spec fn denied_text(level_name: Seq<char>) -> Seq<char> {
    "This command requires **"@ + level_name + "** permission."@
}

/// The refusal of a command that needs a level, or none: a command without
/// a required level is open to all; one with a level must be used in a
/// server that the bot knows, by a user whose level there is high enough
/// (the bot owner `bot_owner` is above all; the server's owner or an
/// Administrator is an admin).
pub open spec fn gate_spec(
    style: Style,
    required: Option<PermissionLevel>,
    server: Server,
    bot_owner: Option<u64>,
    caller: u64,
) -> Option<ReplyView> {
    match required {
        None => None,
        Some(req) => match server {
            Server::Direct => Some(ReplyView::Notice("This command can only be used in a server."@)),
            Server::Unavailable => Some(ReplyView::Notice("Could not load server information."@)),
            Server::Known(owner, admin) => {
                if permits(permission_level_spec(bot_owner, owner, caller, admin), req) {
                    None
                } else {
                    match style {
                        Style::Slash => Some(
                            ReplyView::Embed(
                                "Permission Denied"@,
                                denied_text(permission_name(req)),
                                RED,
                            ),
                        ),
                        Style::Prefix => Some(ReplyView::Notice(denied_text(prefix_level_name(req)))),
                    }
                }
            },
        },
    }
}

fn prefix_level_text(required: PermissionLevel) -> (r: &'static str)
    ensures
        r@ == prefix_level_name(required),
{
    match required {
        PermissionLevel::Owner => "server owner",
        PermissionLevel::Admin => "server admin or owner",
        PermissionLevel::Member => "member",
    }
}

fn denied(level_name: &str) -> (r: String)
    ensures
        r@ == denied_text(level_name@),
{
    let mut s = owned("This command requires **");
    s.append(level_name);
    s.append("** permission.");
    s
}

/// The refusal of a command that `caller` may not run here, if any.
pub fn gate(
    style: Style,
    required: Option<PermissionLevel>,
    server: Server,
    bot_owner: Option<u64>,
    caller: u64,
) -> (r: Option<Reply>)
    ensures
        match r {
            Some(x) => gate_spec(style, required, server, bot_owner, caller) == Some(x@),
            None => gate_spec(style, required, server, bot_owner, caller) is None,
        },
{
    let req = match required {
        None => {
            return None;
        },
        Some(req) => req,
    };
    match server {
        Server::Direct => Some(Reply::Notice(owned("This command can only be used in a server."))),
        Server::Unavailable => Some(Reply::Notice(owned("Could not load server information."))),
        Server::Known(owner, admin) => {
            let level = get_permission_level(bot_owner, owner, caller, admin);
            if has_permission(level, req) {
                None
            } else {
                match style {
                    Style::Slash => Some(
                        Reply::Embed(
                            owned("Permission Denied"),
                            denied(required_permission_message(req)),
                            RED,
                        ),
                    ),
                    Style::Prefix => Some(Reply::Notice(denied(prefix_level_text(req)))),
                }
            }
        },
    }
}

// ---------------------------------------------------------------------------
// Cooldowns and outcomes
// ---------------------------------------------------------------------------

/// The refusal of a caller still on cooldown for `remaining` nanoseconds.
pub open spec fn cooldown_reply(style: Style, remaining: u128) -> ReplyView {
    let text = "You are on cooldown for "@ + duration_text(remaining) + " more seconds"@;
    match style {
        Style::Slash => ReplyView::Embed("Cooldown"@, text, RED),
        Style::Prefix => ReplyView::Notice(text),
    }
}

/// The answer to a command that failed with `message`.
pub open spec fn error_reply(style: Style, message: Seq<char>) -> ReplyView {
    let text = "Error: "@ + message;
    match style {
        Style::Slash => ReplyView::Embed("Error"@, text, RED),
        Style::Prefix => ReplyView::Notice(text),
    }
}

/// Decides whether `caller` may run `command_name` at time `now` (in
/// nanoseconds): first the level check of [`gate`], then the cooldown.
/// Returns the refusal, or `None` when the command may run.
pub fn check_admission(
    ctx: &mut BotContext,
    style: Style,
    required: Option<PermissionLevel>,
    server: Server,
    caller: u64,
    command_name: &str,
    cooldown_nanos: u128,
    now: u128,
) -> (r: Option<Reply>)
    ensures
        final(ctx).config == old(ctx).config,
        gate_spec(style, required, server, old(ctx).config.admin_user_id, caller) matches Some(g) ==> {
            &&& r matches Some(x) && x@ == g
            &&& final(ctx).cooldown_map() == old(ctx).cooldown_map()
        },
        gate_spec(style, required, server, old(ctx).config.admin_user_id, caller) is None ==> {
            &&& final(ctx).cooldown_map() == check_cooldown_spec(
                old(ctx).config.admin_user_id,
                old(ctx).cooldown_map(),
                caller,
                command_name@,
                now,
            ).0
            &&& match remaining_spec(
                old(ctx).config.admin_user_id,
                old(ctx).cooldown_map(),
                caller,
                command_name@,
                cooldown_nanos,
                now,
            ) {
                Some(rem) => r matches Some(x) && x@ == cooldown_reply(style, rem),
                None => r is None,
            }
        },
{
    let refused = gate(style, required, server, ctx.config.admin_user_id, caller);
    if refused.is_some() {
        return refused;
    }
    match ctx.get_cooldown_remaining(caller, command_name, cooldown_nanos, now) {
        Some(rem) => {
            let mut text = owned("You are on cooldown for ");
            text.append(format_duration(rem).as_str());
            text.append(" more seconds");
            match style {
                Style::Slash => Some(Reply::Embed(owned("Cooldown"), text, RED)),
                Style::Prefix => Some(Reply::Notice(text)),
            }
        },
        None => None,
    }
}

/// Records the outcome of a command that ran: a success starts the caller's
/// cooldown at `now`; a failure leaves the cooldowns alone and gives the
/// error to show.
pub fn finish(
    ctx: &mut BotContext,
    style: Style,
    caller: u64,
    command_name: &str,
    now: u128,
    outcome: Result<(), String>,
) -> (r: Option<Reply>)
    ensures
        final(ctx).config == old(ctx).config,
        outcome is Ok ==> r is None && final(ctx).cooldown_map() == old(ctx).cooldown_map().insert(
            (caller, command_name@),
            now,
        ),
        outcome matches Err(e) ==> {
            &&& final(ctx).cooldown_map() == old(ctx).cooldown_map()
            &&& r matches Some(x) && x@ == error_reply(style, e@)
        },
{
    match outcome {
        Ok(()) => {
            ctx.set_cooldown(caller, command_name, now);
            None
        },
        Err(e) => {
            let text = format_error(e.as_str());
            match style {
                Style::Slash => Some(Reply::Embed(owned("Error"), text, RED)),
                Style::Prefix => Some(Reply::Notice(text)),
            }
        },
    }
}

/// A command without a required level is refused by nobody, and a caller
/// at or above the required level in a known server is let through.
pub proof fn law_gate_admits_qualified(
    style: Style,
    req: PermissionLevel,
    owner: u64,
    admin: bool,
    bot_owner: Option<u64>,
    caller: u64,
    server: Server,
)
    ensures
        gate_spec(style, None, server, bot_owner, caller) is None,
        permits(permission_level_spec(bot_owner, owner, caller, admin), req) <==> gate_spec(
            style,
            Some(req),
            Server::Known(owner, admin),
            bot_owner,
            caller,
        ) is None,
{
}

/// The bot owner may use every command in every server the bot knows, and
/// is never held back by a cooldown.
pub proof fn law_bot_owner_always_admitted(
    style: Style,
    required: Option<PermissionLevel>,
    owner: u64,
    admin: bool,
    caller: u64,
    m: crate::bot_core::context::CooldownMap,
    command: Seq<char>,
    cooldown: u128,
    now: u128,
)
    ensures
        gate_spec(style, required, Server::Known(owner, admin), Some(caller), caller) is None,
        remaining_spec(Some(caller), m, caller, command, cooldown, now) is None,
        check_cooldown_spec(Some(caller), m, caller, command, now).0 == m,
{
}

/// A server's owner and its Administrators may use every command that needs
/// at most a server admin.
pub proof fn law_server_admins_pass(
    style: Style,
    owner: u64,
    admin: bool,
    bot_owner: Option<u64>,
    caller: u64,
    req: PermissionLevel,
)
    requires
        caller == owner || admin,
        req != PermissionLevel::Owner,
    ensures
        gate_spec(style, Some(req), Server::Known(owner, admin), bot_owner, caller) is None,
{
}

} // verus!
