//! The wallet command: check (the default), credit, debit, init, reset and
//! unit. Anyone may check their own wallet; checking others and every change
//! needs the bot owner or a server admin.
//!
//! The command is split into what it decides and what it does: a request is
//! first turned into a [`Plan`] (an answer at once, a need for the server's
//! member list, or a [`WalletAction`]), and an action is then applied to the
//! wallets, which gives the reply.
use crate::bot_core::command::{resolve_spec, resolve_subcommand, SubCommandInfo};
use crate::bot_core::permissions::{
    get_permission_level, has_permission, permission_level_spec, permits, PermissionLevel,
};
use crate::bot_core::reply::{Reply, ReplyView, Server};
use crate::plugins::wallet::actions::{action_ok, apply_spec, ActionView, WalletAction};
use crate::plugins::wallet::store::WalletRecord;
use crate::text::{
    chars_of, decimal, decimal_string, lowercase, owned, parse_i64, parse_i64_spec, push_decimal,
    push_range, same_text, str_views, to_lowercase, trim, trim_spec,
};
use vstd::prelude::*;

verus! {

// ---------------------------------------------------------------------------
// How balances and users are written
// ---------------------------------------------------------------------------

/// `s` with a comma before each full group of three characters counted from
/// the right: `1234567` becomes `1,234,567`.
pub open spec fn group_thousands(s: Seq<char>) -> Seq<char>
    decreases s.len(),
{
    if s.len() <= 3 {
        s
    } else {
        group_thousands(s.take(s.len() - 3)) + seq![','] + s.skip(s.len() - 3)
    }
}

/// The decimal notation of `n` with thousands separated by commas.
pub open spec fn number_text(n: u64) -> Seq<char> {
    group_thousands(decimal(n as nat))
}

/// A balance as shown to users: the grouped number, then the unit (trimmed)
/// after a space when there is one.
pub open spec fn balance_text(bal: u64, unit: Seq<char>) -> Seq<char> {
    let u = trim_spec(unit);
    if u.len() == 0 {
        number_text(bal)
    } else {
        number_text(bal) + seq![' '] + u
    }
}

/// The Discord mention of a user: `<@id>`.
pub open spec fn mention(user_id: u64) -> Seq<char> {
    seq!['<', '@'] + decimal(user_id as nat) + seq!['>']
}

fn push_grouped(out: &mut String, cs: &[char], end: usize)
    requires
        end <= cs@.len(),
    ensures
        final(out)@ == old(out)@ + group_thousands(cs@.take(end as int)),
    decreases end,
{
    if end > 3 {
        push_grouped(out, cs, end - 3);
        out.push(',');
        push_range(out, cs, end - 3, end);
        assert(cs@.take(end as int).take(end - 3) =~= cs@.take(end - 3));
        assert(cs@.take(end as int).skip(end - 3) =~= cs@.subrange(end - 3, end as int));
    } else {
        push_range(out, cs, 0, end);
        assert(cs@.subrange(0, end as int) =~= cs@.take(end as int));
    }
}

/// `n` in decimal with commas between groups of three digits.
pub fn format_number_u64(n: u64) -> (r: String)
    ensures
        r@ == number_text(n),
{
    let digits = decimal_string(n);
    let cs = chars_of(digits.as_str());
    let mut r = String::new();
    push_grouped(&mut r, cs.as_slice(), cs.len());
    assert(cs@.take(cs@.len() as int) =~= cs@);
    assert(Seq::<char>::empty() + number_text(n) =~= number_text(n));
    r
}

/// A balance followed by the unit, when the unit is not blank.
pub fn format_balance_with_unit(bal: u64, unit: &str) -> (r: String)
    ensures
        r@ == balance_text(bal, unit@),
{
    let mut num = format_number_u64(bal);
    let u = trim(unit);
    if u.as_str().is_empty() {
        num
    } else {
        num.push(' ');
        num.append(u.as_str());
        num
    }
}

/// The mention of `user_id`.
pub fn user_mention(user_id: u64) -> (r: String)
    ensures
        r@ == mention(user_id),
{
    let mut r = String::new();
    r.push('<');
    r.push('@');
    push_decimal(&mut r, user_id);
    r.push('>');
    assert(r@ =~= mention(user_id));
    r
}

// ---------------------------------------------------------------------------
// The command itself
// ---------------------------------------------------------------------------

/// The wallet command.
pub struct Wallet;

impl Wallet {
    /// The slash command's name.
    pub fn name(&self) -> (r: &'static str)
        ensures
            r@ == "wallet"@,
    {
        "wallet"
    }

    /// What the command does, as listed in help.
    pub fn description(&self) -> (r: &'static str)
        ensures
            r@ == "Check or manage wallet balance (check / add / remove / init / reset)"@,
    {
        "Check or manage wallet balance (check / add / remove / init / reset)"
    }

    /// The word that starts the prefix form of the command.
    pub fn prefix(&self) -> (r: Option<&'static str>)
        ensures
            r matches Some(p) && p@ == "wallet"@,
    {
        Some("wallet")
    }

    /// Other words that start the prefix form.
    pub fn aliases(&self) -> (r: Vec<&'static str>)
        ensures
            r@.len() == 3,
            r@[0]@ == "w"@,
            r@[1]@ == "bal"@,
            r@[2]@ == "balance"@,
    {
        vec!["w", "bal", "balance"]
    }

    /// The time a user waits between two uses, in seconds.
    pub fn cooldown_secs(&self) -> (r: u64)
        ensures
            r == 2,
    {
        2
    }

    /// The level needed to run the command at all: none, each subcommand
    /// checks its own.
    pub fn required_permission_level(&self) -> (r: Option<PermissionLevel>)
        ensures
            r is None,
    {
        None
    }

    /// The command's version.
    pub fn version(&self) -> (r: &'static str)
        ensures
            r@ == "1.0.0"@,
    {
        "1.0.0"
    }

    /// The subcommands, with their aliases, in the order in which a word is
    /// matched against them.
    pub fn subcommands(&self) -> (r: Vec<SubCommandInfo>)
        ensures
            r@ == wallet_subcommands(),
    {
        vec![
            SubCommandInfo {
                name: "check",
                description: "Check wallet balance (self or mentioned users)",
                aliases: &["bal", "balance"],
            },
            SubCommandInfo {
                name: "credit",
                description: "Add money (bot owner / server admin only)",
                aliases: &["add"],
            },
            SubCommandInfo {
                name: "debit",
                description: "Remove money (bot owner / server admin only)",
                aliases: &["remove", "sub"],
            },
            SubCommandInfo {
                name: "init",
                description: "Initialize wallet(s) (bot owner / server admin only)",
                aliases: &[],
            },
            SubCommandInfo {
                name: "reset",
                description: "Reset wallet(s) to balance (bot owner / server admin only)",
                aliases: &[],
            },
            SubCommandInfo {
                name: "unit",
                description: "Set display unit for balance (e.g. xu) (bot owner / server admin only)",
                aliases: &[],
            },
        ]
    }
}

/// The wallet's subcommand table.
pub open spec fn wallet_subcommands() -> Seq<SubCommandInfo> {
    seq![
        SubCommandInfo {
            name: "check",
            description: "Check wallet balance (self or mentioned users)",
            aliases: &["bal", "balance"],
        },
        SubCommandInfo {
            name: "credit",
            description: "Add money (bot owner / server admin only)",
            aliases: &["add"],
        },
        SubCommandInfo {
            name: "debit",
            description: "Remove money (bot owner / server admin only)",
            aliases: &["remove", "sub"],
        },
        SubCommandInfo {
            name: "init",
            description: "Initialize wallet(s) (bot owner / server admin only)",
            aliases: &[],
        },
        SubCommandInfo {
            name: "reset",
            description: "Reset wallet(s) to balance (bot owner / server admin only)",
            aliases: &[],
        },
        SubCommandInfo {
            name: "unit",
            description: "Set display unit for balance (e.g. xu) (bot owner / server admin only)",
            aliases: &[],
        },
    ]
}

// ---------------------------------------------------------------------------
// Deciding what to do
// ---------------------------------------------------------------------------

/// The caller's level, or the notice when it cannot be known.
pub open spec fn caller_level_spec(server: Server, bot_owner: Option<u64>, caller: u64) -> Result<
    PermissionLevel,
    ReplyView,
> {
    match server {
        Server::Direct => Err(ReplyView::Notice("This command can only be used in a server."@)),
        Server::Unavailable => Err(ReplyView::Notice("Could not load server information."@)),
        Server::Known(owner, admin) => Ok(permission_level_spec(bot_owner, owner, caller, admin)),
    }
}

/// The level of `caller` where the command was used, given the bot owner.
pub fn caller_level(server: Server, bot_owner: Option<u64>, caller: u64) -> (r: Result<
    PermissionLevel,
    Reply,
>)
    ensures
        match r {
            Ok(l) => caller_level_spec(server, bot_owner, caller) == Ok::<PermissionLevel, ReplyView>(l),
            Err(e) => caller_level_spec(server, bot_owner, caller) == Err::<PermissionLevel, ReplyView>(e@),
        },
{
    match server {
        Server::Direct => Err(Reply::Notice(owned("This command can only be used in a server."))),
        Server::Unavailable => Err(Reply::Notice(owned("Could not load server information."))),
        Server::Known(owner, admin) => Ok(get_permission_level(bot_owner, owner, caller, admin)),
    }
}

/// Which wallets a command over the whole server sets.
#[derive(Debug, Clone, Copy, PartialEq, Eq, Structural)]
pub enum MemberGoal {
    /// Give a wallet to members without one.
    Init,
    /// Set every member's wallet.
    Reset,
}

/// What the command does next.
pub enum Plan {
    /// Answer at once, touching no wallet.
    Answer(Reply),
    /// Fetch the server's members who are not bots, then continue with
    /// [`plan_with_members`], passing this balance.
    NeedMembers(MemberGoal, i64),
    /// Apply this action to the wallets.
    Run(WalletAction),
}

/// A plan as plain values.
pub enum PlanView {
    Answer(ReplyView),
    NeedMembers(MemberGoal, i64),
    Run(ActionView),
}

impl View for Plan {
    type V = PlanView;

    open spec fn view(&self) -> PlanView {
        match self {
            Plan::Answer(r) => PlanView::Answer(r@),
            Plan::NeedMembers(g, b) => PlanView::NeedMembers(*g, *b),
            Plan::Run(a) => PlanView::Run(a@),
        }
    }
}

/// The refusal of a subcommand that needs the bot owner or a server admin.
pub open spec fn need_admin_text(what: Seq<char>) -> Seq<char> {
    "You need **bot owner** or **server admin** to "@ + what + "."@
}

/// The refusal to act on a bot.
pub open spec fn bots_text() -> Seq<char> {
    "Bots and application accounts are not supported."@
}

/// The refusal when a server-wide init or reset finds nobody.
pub open spec fn no_users_text(goal: MemberGoal) -> Seq<char> {
    match goal {
        MemberGoal::Init => "No users to init (could not load server members from cache or API)."@,
        MemberGoal::Reset => "No users to reset (could not load server members from cache or API)."@,
    }
}

/// Whether the caller is the bot owner or a server admin.
pub open spec fn is_admin_level(level: PermissionLevel) -> bool {
    permits(level, PermissionLevel::Admin)
}

/// Whether the users that an interaction resolved mark `u` as a bot.
pub open spec fn resolved_bot(resolved: Seq<(u64, bool)>, u: u64) -> bool {
    exists|i: int| 0 <= i < resolved.len() && (#[trigger] resolved[i]).0 == u && resolved[i].1
}

/// A balance request with negative values counted as 0.
pub open spec fn nonneg(a: i64) -> i64 {
    if a < 0 {
        0
    } else {
        a
    }
}

/// The next step of an init or reset of `targets`: a lone target that the
/// interaction resolved as a bot is refused, nobody at all is refused, and
/// otherwise the action runs.
pub open spec fn targets_plan(goal: MemberGoal, targets: Seq<u64>, bal: i64, resolved: Seq<(u64, bool)>) -> PlanView {
    if targets.len() == 1 && resolved_bot(resolved, targets[0]) {
        PlanView::Answer(ReplyView::Notice(bots_text()))
    } else if targets.len() == 0 {
        PlanView::Answer(ReplyView::Notice(no_users_text(goal)))
    } else {
        match goal {
            MemberGoal::Init => PlanView::Run(ActionView::Init(targets, bal)),
            MemberGoal::Reset => PlanView::Run(ActionView::Reset(targets, bal)),
        }
    }
}

/// What a slash command does, given its subcommand and options, the caller,
/// the caller's level and the users that the interaction resolved (each with
/// whether it is a bot). A missing subcommand means `check`; an unknown one
/// shows the caller's own balance.
pub open spec fn slash_plan(
    sub: Option<Seq<char>>,
    user: Option<u64>,
    amount: Option<i64>,
    unit: Option<Seq<char>>,
    caller: u64,
    level: PermissionLevel,
    resolved: Seq<(u64, bool)>,
) -> PlanView {
    let name = match sub {
        Some(s) => s,
        None => "check"@,
    };
    let admin = is_admin_level(level);
    let target = match user {
        Some(u) => u,
        None => caller,
    };
    if name == "check"@ {
        if target != caller && resolved_bot(resolved, target) {
            PlanView::Answer(ReplyView::Notice(bots_text()))
        } else if target != caller && !admin {
            PlanView::Answer(ReplyView::Notice(need_admin_text("view others' wallets"@)))
        } else {
            PlanView::Run(ActionView::Check(seq![target]))
        }
    } else if name == "init"@ || name == "reset"@ {
        let goal = if name == "init"@ {
            MemberGoal::Init
        } else {
            MemberGoal::Reset
        };
        let bal = nonneg(
            match amount {
                Some(a) => a,
                None => 0,
            },
        );
        if !admin {
            PlanView::Answer(
                ReplyView::Notice(
                    need_admin_text(
                        if name == "init"@ {
                            "init wallets"@
                        } else {
                            "reset wallets"@
                        },
                    ),
                ),
            )
        } else {
            match user {
                Some(u) => targets_plan(goal, seq![u], bal, resolved),
                None => PlanView::NeedMembers(goal, bal),
            }
        }
    } else if name == "credit"@ || name == "debit"@ {
        let a = match amount {
            Some(a) => a,
            None => 0,
        };
        if !admin {
            PlanView::Answer(ReplyView::Notice(need_admin_text("credit/debit balance"@)))
        } else if a <= 0 {
            PlanView::Answer(ReplyView::Notice("Invalid amount (must be positive)."@))
        } else if target != caller && resolved_bot(resolved, target) {
            PlanView::Answer(ReplyView::Notice(bots_text()))
        } else if name == "credit"@ {
            PlanView::Run(ActionView::Credit(seq![target], a))
        } else {
            PlanView::Run(ActionView::Debit(seq![target], a))
        }
    } else if name == "unit"@ {
        if !admin {
            PlanView::Answer(ReplyView::Notice(need_admin_text("set the wallet unit"@)))
        } else {
            PlanView::Run(
                ActionView::SetUnit(
                    trim_spec(
                        match unit {
                            Some(u) => u,
                            None => ""@,
                        },
                    ),
                ),
            )
        }
    } else {
        PlanView::Run(ActionView::SelfCheck(caller))
    }
}

/// The ids of the mentioned users that are not bots, in order.
pub open spec fn human_mentions(mentions: Seq<(u64, bool)>) -> Seq<u64>
    decreases mentions.len(),
{
    if mentions.len() == 0 {
        seq![]
    } else if mentions.last().1 {
        human_mentions(mentions.drop_last())
    } else {
        human_mentions(mentions.drop_last()).push(mentions.last().0)
    }
}

/// The first of `words` that reads as a number at least 0, or 0 when none
/// does.
pub open spec fn first_nonneg_number(words: Seq<Seq<char>>) -> i64
    decreases words.len(),
{
    if words.len() == 0 {
        0
    } else {
        match parse_i64_spec(words[0]) {
            Some(n) => if n >= 0 {
                n
            } else {
                first_nonneg_number(words.drop_first())
            },
            None => first_nonneg_number(words.drop_first()),
        }
    }
}

/// The subcommand that the words of a prefix command name: the first word,
/// lowercased and resolved through the subcommand table. `check` is the
/// default: it is meant when there is no word, and when the first word
/// names no subcommand (such as a mention).
pub open spec fn prefix_sub(args: Seq<Seq<char>>) -> Seq<char> {
    if args.len() > 0 {
        match resolve_spec(wallet_subcommands(), lowercase(args[0])) {
            Some(n) => n,
            None => "check"@,
        }
    } else {
        "check"@
    }
}

/// What a prefix command does, given its words after the command, the
/// caller, the caller's level and the users the message mentions (each with
/// whether it is a bot). The subcommand is one of the table's names, so
/// after `check`, `init`/`reset` and `credit`/`debit` only `unit` is left.
pub open spec fn prefix_plan(
    args: Seq<Seq<char>>,
    caller: u64,
    level: PermissionLevel,
    mentions: Seq<(u64, bool)>,
) -> PlanView {
    let name = prefix_sub(args);
    let rest = if args.len() > 0 {
        args.drop_first()
    } else {
        seq![]
    };
    let humans = human_mentions(mentions);
    let admin = is_admin_level(level);
    if name == "check"@ {
        if humans.len() == 0 {
            PlanView::Run(ActionView::Check(seq![caller]))
        } else if !admin {
            PlanView::Answer(ReplyView::Notice(need_admin_text("view others' wallets"@)))
        } else {
            PlanView::Run(ActionView::Check(humans))
        }
    } else if name == "init"@ || name == "reset"@ {
        let goal = if name == "init"@ {
            MemberGoal::Init
        } else {
            MemberGoal::Reset
        };
        let bal = first_nonneg_number(rest);
        if !admin {
            PlanView::Answer(
                ReplyView::Notice(
                    need_admin_text(
                        if name == "init"@ {
                            "init wallets"@
                        } else {
                            "reset wallets"@
                        },
                    ),
                ),
            )
        } else if humans.len() == 0 {
            PlanView::NeedMembers(goal, bal)
        } else {
            targets_plan(goal, humans, bal, seq![])
        }
    } else if name == "credit"@ || name == "debit"@ {
        let a = if rest.len() > 0 {
            match parse_i64_spec(rest[0]) {
                Some(n) => n,
                None => 0,
            }
        } else {
            0
        };
        let targets = if humans.len() == 0 {
            seq![caller]
        } else {
            humans
        };
        if !admin {
            PlanView::Answer(
                ReplyView::Notice(
                    need_admin_text(
                        if name == "credit"@ {
                            "add balance"@
                        } else {
                            "remove balance"@
                        },
                    ),
                ),
            )
        } else if a <= 0 {
            PlanView::Answer(ReplyView::Notice("Invalid amount (positive number required)."@))
        } else if name == "credit"@ {
            PlanView::Run(ActionView::Credit(targets, a))
        } else {
            PlanView::Run(ActionView::Debit(targets, a))
        }
    } else if !admin {
        PlanView::Answer(ReplyView::Notice(need_admin_text("set the wallet unit"@)))
    } else {
        PlanView::Run(
            ActionView::SetUnit(
                if rest.len() > 0 {
                    trim_spec(rest[0])
                } else {
                    ""@
                },
            ),
        )
    }
}

fn one(u: u64) -> (v: Vec<u64>)
    ensures
        v@ == seq![u],
{
    let mut v: Vec<u64> = Vec::new();
    v.push(u);
    assert(v@ =~= seq![u]);
    v
}

fn need_admin(what: &str) -> (r: Reply)
    ensures
        r@ == ReplyView::Notice(need_admin_text(what@)),
{
    let mut s = owned("You need **bot owner** or **server admin** to ");
    s.append(what);
    s.append(".");
    Reply::Notice(s)
}

fn answer(text: &str) -> (r: Plan)
    ensures
        r@ == PlanView::Answer(ReplyView::Notice(text@)),
{
    Plan::Answer(Reply::Notice(owned(text)))
}

fn is_bot_in(resolved: &[(u64, bool)], u: u64) -> (r: bool)
    ensures
        r == resolved_bot(resolved@, u),
{
    let mut i: usize = 0;
    while i < resolved.len()
        invariant
            i <= resolved@.len(),
            forall|j: int| 0 <= j < i ==> !((#[trigger] resolved@[j]).0 == u && resolved@[j].1),
        decreases resolved@.len() - i,
    {
        let (id, bot) = resolved[i];
        if id == u && bot {
            assert(resolved@[i as int].0 == u && resolved@[i as int].1);
            return true;
        }
        i = i + 1;
    }
    false
}

/// The ids of the mentioned users that are not bots.
pub fn filter_human_mentions(mentions: &[(u64, bool)]) -> (r: Vec<u64>)
    ensures
        r@ == human_mentions(mentions@),
{
    let mut r: Vec<u64> = Vec::new();
    let mut i: usize = 0;
    while i < mentions.len()
        invariant
            i <= mentions@.len(),
            r@ == human_mentions(mentions@.take(i as int)),
        decreases mentions@.len() - i,
    {
        assert(mentions@.take(i + 1).drop_last() =~= mentions@.take(i as int));
        let (id, bot) = mentions[i];
        if !bot {
            r.push(id);
        }
        i = i + 1;
    }
    assert(mentions@.take(mentions@.len() as int) =~= mentions@);
    r
}

fn targets_step(goal: MemberGoal, targets: Vec<u64>, bal: i64, resolved: &[(u64, bool)]) -> (r: Plan)
    ensures
        r@ == targets_plan(goal, targets@, bal, resolved@),
{
    if targets.len() == 1 && is_bot_in(resolved, targets[0]) {
        return answer("Bots and application accounts are not supported.");
    }
    if targets.len() == 0 {
        return match goal {
            MemberGoal::Init => answer(
                "No users to init (could not load server members from cache or API).",
            ),
            MemberGoal::Reset => answer(
                "No users to reset (could not load server members from cache or API).",
            ),
        };
    }
    match goal {
        MemberGoal::Init => Plan::Run(WalletAction::Init(targets, bal)),
        MemberGoal::Reset => Plan::Run(WalletAction::Reset(targets, bal)),
    }
}

/// Continues a server-wide init or reset with the server's members who are
/// not bots (none when they could not be loaded), and the users that the
/// interaction resolved (none for a prefix command).
pub fn plan_with_members(goal: MemberGoal, bal: i64, members: &[u64], resolved: &[(u64, bool)]) -> (r:
    Plan)
    ensures
        r@ == targets_plan(goal, members@, bal, resolved@),
{
    let mut targets: Vec<u64> = Vec::new();
    let mut i: usize = 0;
    while i < members.len()
        invariant
            i <= members@.len(),
            targets@ == members@.take(i as int),
        decreases members@.len() - i,
    {
        targets.push(members[i]);
        i = i + 1;
    }
    assert(members@.take(members@.len() as int) =~= members@);
    targets_step(goal, targets, bal, resolved)
}

fn first_nonneg_from(words: &[&str], from: usize) -> (r: i64)
    requires
        from <= words@.len(),
    ensures
        r == first_nonneg_number(str_views(words@).skip(from as int)),
    decreases words@.len() - from,
{
    if from == words.len() {
        assert(str_views(words@).skip(from as int) =~= Seq::<Seq<char>>::empty());
        return 0;
    }
    let ghost ws = str_views(words@).skip(from as int);
    assert(ws.drop_first() =~= str_views(words@).skip(from + 1));
    assert(ws[0] == words@[from as int]@);
    match parse_i64(words[from]) {
        Some(n) => if n >= 0 {
            n
        } else {
            first_nonneg_from(words, from + 1)
        },
        None => first_nonneg_from(words, from + 1),
    }
}

impl Wallet {
    /// The name of the subcommand that `name_or_alias` names, ignoring
    /// ASCII case.
    pub fn resolve_subcommand(&self, name_or_alias: &str) -> (r: Option<&'static str>)
        ensures
            match r {
                Some(n) => resolve_spec(wallet_subcommands(), name_or_alias@) == Some(n@),
                None => resolve_spec(wallet_subcommands(), name_or_alias@) is None,
            },
    {
        let subs = self.subcommands();
        resolve_subcommand(subs.as_slice(), name_or_alias)
    }

    /// Decides what a slash command does; see [`slash_plan`].
    pub fn plan_slash(
        &self,
        sub: Option<&str>,
        user: Option<u64>,
        amount: Option<i64>,
        unit: Option<&str>,
        caller: u64,
        level: PermissionLevel,
        resolved: &[(u64, bool)],
    ) -> (r: Plan)
        ensures
            r@ == slash_plan(
                match sub {
                    Some(s) => Some(s@),
                    None => None,
                },
                user,
                amount,
                match unit {
                    Some(u) => Some(u@),
                    None => None,
                },
                caller,
                level,
                resolved@,
            ),
    {
        let name: &str = match sub {
            Some(s) => s,
            None => "check",
        };
        let admin = has_permission(level, PermissionLevel::Admin);
        let target = match user {
            Some(u) => u,
            None => caller,
        };
        if same_text(name, "check") {
            if target != caller && is_bot_in(resolved, target) {
                return answer("Bots and application accounts are not supported.");
            }
            if target != caller && !admin {
                return Plan::Answer(need_admin("view others' wallets"));
            }
            return Plan::Run(WalletAction::Check(one(target)));
        }
        let is_init = same_text(name, "init");
        if is_init || same_text(name, "reset") {
            let goal = if is_init {
                MemberGoal::Init
            } else {
                MemberGoal::Reset
            };
            let requested = match amount {
                Some(a) => a,
                None => 0,
            };
            let bal = if requested < 0 {
                0
            } else {
                requested
            };
            if !admin {
                return Plan::Answer(
                    need_admin(
                        if is_init {
                            "init wallets"
                        } else {
                            "reset wallets"
                        },
                    ),
                );
            }
            return match user {
                Some(u) => targets_step(goal, one(u), bal, resolved),
                None => Plan::NeedMembers(goal, bal),
            };
        }
        let is_credit = same_text(name, "credit");
        if is_credit || same_text(name, "debit") {
            let a = match amount {
                Some(a) => a,
                None => 0,
            };
            if !admin {
                return Plan::Answer(need_admin("credit/debit balance"));
            }
            if a <= 0 {
                return answer("Invalid amount (must be positive).");
            }
            if target != caller && is_bot_in(resolved, target) {
                return answer("Bots and application accounts are not supported.");
            }
            if is_credit {
                return Plan::Run(WalletAction::Credit(one(target), a));
            }
            return Plan::Run(WalletAction::Debit(one(target), a));
        }
        if same_text(name, "unit") {
            if !admin {
                return Plan::Answer(need_admin("set the wallet unit"));
            }
            let given: &str = match unit {
                Some(u) => u,
                None => "",
            };
            return Plan::Run(WalletAction::SetUnit(trim(given)));
        }
        Plan::Run(WalletAction::SelfCheck(caller))
    }

    /// Decides what a prefix command does, given the words after the command
    /// word; see [`prefix_plan`].
    pub fn plan_prefix(
        &self,
        args: &[&str],
        caller: u64,
        level: PermissionLevel,
        mentions: &[(u64, bool)],
    ) -> (r: Plan)
        ensures
            r@ == prefix_plan(str_views(args@), caller, level, mentions@),
    {
        let ghost words = str_views(args@);
        let name: &str = if args.len() > 0 {
            let word = to_lowercase(args[0]);
            match self.resolve_subcommand(word.as_str()) {
                Some(n) => n,
                None => "check",
            }
        } else {
            "check"
        };
        assert(name@ == prefix_sub(words));
        proof {
            if args@.len() > 0 {
                assert(words.drop_first() =~= str_views(args@).skip(1));
            }
        }
        let humans = filter_human_mentions(mentions);
        let admin = has_permission(level, PermissionLevel::Admin);
        if same_text(name, "check") {
            if humans.len() == 0 {
                return Plan::Run(WalletAction::Check(one(caller)));
            }
            if !admin {
                return Plan::Answer(need_admin("view others' wallets"));
            }
            return Plan::Run(WalletAction::Check(humans));
        }
        let is_init = same_text(name, "init");
        if is_init || same_text(name, "reset") {
            let goal = if is_init {
                MemberGoal::Init
            } else {
                MemberGoal::Reset
            };
            let bal = if args.len() > 0 {
                first_nonneg_from(args, 1)
            } else {
                0
            };
            if !admin {
                return Plan::Answer(
                    need_admin(
                        if is_init {
                            "init wallets"
                        } else {
                            "reset wallets"
                        },
                    ),
                );
            }
            if humans.len() == 0 {
                return Plan::NeedMembers(goal, bal);
            }
            return targets_step(goal, humans, bal, &[]);
        }
        let is_credit = same_text(name, "credit");
        if is_credit || same_text(name, "debit") {
            let a: i64 = if args.len() > 1 {
                match parse_i64(args[1]) {
                    Some(n) => n,
                    None => 0,
                }
            } else {
                0
            };
            if !admin {
                return Plan::Answer(
                    need_admin(
                        if is_credit {
                            "add balance"
                        } else {
                            "remove balance"
                        },
                    ),
                );
            }
            if a <= 0 {
                return answer("Invalid amount (positive number required).");
            }
            let targets = if humans.len() == 0 {
                one(caller)
            } else {
                humans
            };
            if is_credit {
                return Plan::Run(WalletAction::Credit(targets, a));
            }
            return Plan::Run(WalletAction::Debit(targets, a));
        }
        if !admin {
            return Plan::Answer(need_admin("set the wallet unit"));
        }
        let value = if args.len() > 1 {
            assert(words.drop_first()[0] == args@[1]@);
            trim(args[1])
        } else {
            owned("")
        };
        Plan::Run(WalletAction::SetUnit(value))
    }
}

// ---------------------------------------------------------------------------
// Laws
// ---------------------------------------------------------------------------

/// Whether a plan only lets the caller look at their own wallet: it answers
/// at once, or checks the caller's balance alone.
pub open spec fn only_own_wallet(p: PlanView, caller: u64) -> bool {
    ||| p is Answer
    ||| p == PlanView::Run(ActionView::Check(seq![caller]))
    ||| p == PlanView::Run(ActionView::SelfCheck(caller))
}

/// A caller below server admin can only look at their own wallet, by slash
/// command: every change, and every look at another user's wallet, is
/// refused.
pub proof fn law_member_sees_only_own_wallet_slash(
    sub: Option<Seq<char>>,
    user: Option<u64>,
    amount: Option<i64>,
    unit: Option<Seq<char>>,
    caller: u64,
    level: PermissionLevel,
    resolved: Seq<(u64, bool)>,
)
    requires
        !is_admin_level(level),
    ensures
        only_own_wallet(slash_plan(sub, user, amount, unit, caller, level, resolved), caller),
{
}

/// The same for prefix commands.
pub proof fn law_member_sees_only_own_wallet_prefix(
    args: Seq<Seq<char>>,
    caller: u64,
    level: PermissionLevel,
    mentions: Seq<(u64, bool)>,
)
    requires
        !is_admin_level(level),
    ensures
        only_own_wallet(prefix_plan(args, caller, level, mentions), caller),
{
}

/// Every action that a plan runs can be applied: credits and debits move a
/// positive amount.
pub proof fn law_planned_actions_apply(
    sub: Option<Seq<char>>,
    user: Option<u64>,
    amount: Option<i64>,
    unit: Option<Seq<char>>,
    caller: u64,
    level: PermissionLevel,
    resolved: Seq<(u64, bool)>,
    args: Seq<Seq<char>>,
    mentions: Seq<(u64, bool)>,
    goal: MemberGoal,
    targets: Seq<u64>,
    bal: i64,
)
    ensures
        slash_plan(sub, user, amount, unit, caller, level, resolved) matches PlanView::Run(a)
            ==> action_ok(a),
        prefix_plan(args, caller, level, mentions) matches PlanView::Run(a) ==> action_ok(a),
        targets_plan(goal, targets, bal, resolved) matches PlanView::Run(a) ==> action_ok(a),
{
}

proof fn lemma_first_nonneg_number(words: Seq<Seq<char>>)
    ensures
        first_nonneg_number(words) >= 0,
    decreases words.len(),
{
    if words.len() > 0 {
        lemma_first_nonneg_number(words.drop_first());
    }
}

/// A server-wide init or reset never asks for members with a negative
/// balance, and never runs on an empty list of users.
pub proof fn law_member_step_sound(
    sub: Option<Seq<char>>,
    user: Option<u64>,
    amount: Option<i64>,
    unit: Option<Seq<char>>,
    caller: u64,
    level: PermissionLevel,
    resolved: Seq<(u64, bool)>,
    args: Seq<Seq<char>>,
    mentions: Seq<(u64, bool)>,
    goal: MemberGoal,
    targets: Seq<u64>,
    bal: i64,
)
    ensures
        slash_plan(sub, user, amount, unit, caller, level, resolved) matches PlanView::NeedMembers(
            _,
            b,
        ) ==> b >= 0,
        prefix_plan(args, caller, level, mentions) matches PlanView::NeedMembers(_, b) ==> b >= 0,
        targets_plan(goal, targets, bal, resolved) matches PlanView::Run(a) ==> (match a {
            ActionView::Init(t, _) => t.len() > 0,
            ActionView::Reset(t, _) => t.len() > 0,
            _ => false,
        }),
{
    if args.len() > 0 {
        lemma_first_nonneg_number(args.drop_first());
    }
}

/// `check` is the default of the prefix form: without words, or with a first
/// word that names no subcommand (such as a mention), the caller sees their
/// own wallet, or, when users are mentioned, theirs (a server admin or the
/// bot owner) or a refusal (anyone else).
pub proof fn law_prefix_default_is_check(
    args: Seq<Seq<char>>,
    caller: u64,
    level: PermissionLevel,
    mentions: Seq<(u64, bool)>,
)
    requires
        args.len() == 0 || resolve_spec(wallet_subcommands(), lowercase(args[0])) is None,
    ensures
        prefix_plan(args, caller, level, mentions) == if human_mentions(mentions).len() == 0 {
            PlanView::Run(ActionView::Check(seq![caller]))
        } else if !is_admin_level(level) {
            PlanView::Answer(ReplyView::Notice(need_admin_text("view others' wallets"@)))
        } else {
            PlanView::Run(ActionView::Check(human_mentions(mentions)))
        },
{
}

/// Nothing a caller below server admin asks for, by slash or prefix
/// command, changes a wallet or the unit, or saves the wallets.
pub proof fn law_member_changes_nothing(
    sub: Option<Seq<char>>,
    user: Option<u64>,
    amount: Option<i64>,
    unit_arg: Option<Seq<char>>,
    args: Seq<Seq<char>>,
    mentions: Seq<(u64, bool)>,
    caller: u64,
    level: PermissionLevel,
    resolved: Seq<(u64, bool)>,
    m: Map<u64, WalletRecord>,
    unit: Seq<char>,
    now: Seq<char>,
)
    requires
        !is_admin_level(level),
    ensures
        slash_plan(sub, user, amount, unit_arg, caller, level, resolved) matches PlanView::Run(a) ==> {
            &&& apply_spec(a, m, unit, now).users == m
            &&& apply_spec(a, m, unit, now).unit == unit
            &&& !apply_spec(a, m, unit, now).save
        },
        prefix_plan(args, caller, level, mentions) matches PlanView::Run(a) ==> {
            &&& apply_spec(a, m, unit, now).users == m
            &&& apply_spec(a, m, unit, now).unit == unit
            &&& !apply_spec(a, m, unit, now).save
        },
        !(slash_plan(sub, user, amount, unit_arg, caller, level, resolved) is NeedMembers),
        !(prefix_plan(args, caller, level, mentions) is NeedMembers),
{
}

/// The subcommand names are distinct texts.
proof fn lemma_sub_names_differ()
    ensures
        "credit"@ != "check"@,
        "credit"@ != "init"@,
        "credit"@ != "reset"@,
        "credit"@ != "debit"@,
        "debit"@ != "check"@,
        "debit"@ != "init"@,
        "debit"@ != "reset"@,
        "debit"@ != "unit"@,
{
    reveal_strlit("credit");
    reveal_strlit("debit");
    reveal_strlit("check");
    reveal_strlit("init");
    reveal_strlit("reset");
    reveal_strlit("unit");
    assert("credit"@.len() == 6);
    assert("check"@.len() == 5 && "debit"@.len() == 5 && "reset"@.len() == 5);
    assert("init"@.len() == 4 && "unit"@.len() == 4);
    assert("check"@[0] == 'c' && "debit"@[0] == 'd' && "reset"@[0] == 'r');
}

/// The users a message mentions that are not bots are the mentions not
/// flagged as bots, in order.
pub proof fn lemma_human_mentions_unflagged(mentions: Seq<(u64, bool)>)
    ensures
        human_mentions(mentions) == mentions.filter_map(
            |m: (u64, bool)|
                if m.1 {
                    None::<u64>
                } else {
                    Some(m.0)
                },
        ),
    decreases mentions.len(),
{
    if mentions.len() > 0 {
        lemma_human_mentions_unflagged(mentions.drop_last());
        let f = |m: (u64, bool)|
            if m.1 {
                None::<u64>
            } else {
                Some(m.0)
            };
        if !mentions.last().1 {
            assert(mentions.drop_last().filter_map(f).push(mentions.last().0) =~= mentions.drop_last().filter_map(
                f,
            ) + seq![mentions.last().0]);
        }
    }
}

/// A prefix credit or debit (`m/wallet add 100 @Bob`) by a server admin or
/// the bot owner, with a positive amount as its second word, moves money
/// for exactly the users the message mentions that are not bots, in order;
/// only when it mentions none is the caller the one whose balance changes.
pub proof fn law_prefix_credit_debit_targets_mentions(
    args: Seq<Seq<char>>,
    caller: u64,
    level: PermissionLevel,
    mentions: Seq<(u64, bool)>,
    a: i64,
)
    requires
        args.len() >= 2,
        resolve_spec(wallet_subcommands(), lowercase(args[0])) == Some("credit"@)
            || resolve_spec(wallet_subcommands(), lowercase(args[0])) == Some("debit"@),
        parse_i64_spec(args[1]) == Some(a),
        a > 0,
        level == PermissionLevel::Admin || level == PermissionLevel::Owner,
    ensures
        ({
            let humans = mentions.filter_map(
                |m: (u64, bool)|
                    if m.1 {
                        None::<u64>
                    } else {
                        Some(m.0)
                    },
            );
            let targets = if humans.len() == 0 {
                seq![caller]
            } else {
                humans
            };
            if resolve_spec(wallet_subcommands(), lowercase(args[0])) == Some("credit"@) {
                prefix_plan(args, caller, level, mentions) == PlanView::Run(ActionView::Credit(targets, a))
            } else {
                prefix_plan(args, caller, level, mentions) == PlanView::Run(ActionView::Debit(targets, a))
            }
        }),
{
    lemma_sub_names_differ();
    lemma_human_mentions_unflagged(mentions);
    assert(args.drop_first()[0] == args[1]);
}

/// A slash credit or debit (`/wallet credit amount:3 user:@8`) by a server
/// admin or the bot owner, with a positive amount, moves money for the
/// chosen `user` when it is not a bot (or is the caller), and for the
/// caller only when no user is chosen.
pub proof fn law_slash_credit_debit_targets_user(
    credit: bool,
    user: Option<u64>,
    a: i64,
    unit: Option<Seq<char>>,
    caller: u64,
    level: PermissionLevel,
    resolved: Seq<(u64, bool)>,
)
    requires
        a > 0,
        level == PermissionLevel::Admin || level == PermissionLevel::Owner,
        user matches Some(u) ==> u == caller || forall|i: int|
            0 <= i < resolved.len() && (#[trigger] resolved[i]).0 == u ==> !resolved[i].1,
    ensures
        ({
            let who = match user {
                Some(u) => u,
                None => caller,
            };
            if credit {
                slash_plan(Some("credit"@), user, Some(a), unit, caller, level, resolved)
                    == PlanView::Run(ActionView::Credit(seq![who], a))
            } else {
                slash_plan(Some("debit"@), user, Some(a), unit, caller, level, resolved)
                    == PlanView::Run(ActionView::Debit(seq![who], a))
            }
        }),
{
    lemma_sub_names_differ();
}

} // verus!
