//! What the wallet command does to the wallets once it has decided what to
//! do, and the reply it gives.
use crate::plugins::wallet::command::{
    balance_text, format_balance_with_unit, mention, user_mention,
};
use crate::plugins::wallet::store::{
    add_balance_spec, can_subtract, clamp_amount, init_user_if_new_spec, init_user_spec,
    subtract_balance_spec, WalletData, WalletRecord,
};
use crate::bot_core::reply::{Reply, ReplyView};
use crate::text::{decimal, is_digit, join, join_spec, owned, push_decimal, views};
use vstd::prelude::*;

verus! {

/// The color of a successful reply.
pub const GREEN: u32 = 0x00ff00;

/// The color of a reply to a debit that left some users out.
pub const ORANGE: u32 = 0xffaa00;

/// Something the wallet command does to the wallets.
pub enum WalletAction {
    /// Show the balances of these users.
    Check(Vec<u64>),
    /// Show the caller's own balance.
    SelfCheck(u64),
    /// Give these users a wallet with this balance, if they have none.
    Init(Vec<u64>, i64),
    /// Set the wallets of these users to this balance.
    Reset(Vec<u64>, i64),
    /// Add this amount to the balance of each user.
    Credit(Vec<u64>, i64),
    /// Take this amount from the balance of each user that has it.
    Debit(Vec<u64>, i64),
    /// Show balances with this unit (none when empty).
    SetUnit(String),
}

/// An action as plain values.
pub enum ActionView {
    Check(Seq<u64>),
    SelfCheck(u64),
    Init(Seq<u64>, i64),
    Reset(Seq<u64>, i64),
    Credit(Seq<u64>, i64),
    Debit(Seq<u64>, i64),
    SetUnit(Seq<char>),
}

impl View for WalletAction {
    type V = ActionView;

    open spec fn view(&self) -> ActionView {
        match self {
            WalletAction::Check(t) => ActionView::Check(t@),
            WalletAction::SelfCheck(u) => ActionView::SelfCheck(*u),
            WalletAction::Init(t, b) => ActionView::Init(t@, *b),
            WalletAction::Reset(t, b) => ActionView::Reset(t@, *b),
            WalletAction::Credit(t, a) => ActionView::Credit(t@, *a),
            WalletAction::Debit(t, a) => ActionView::Debit(t@, *a),
            WalletAction::SetUnit(u) => ActionView::SetUnit(u@),
        }
    }
}

/// Credits and debits move a positive amount.
pub open spec fn action_ok(a: ActionView) -> bool {
    match a {
        ActionView::Credit(_, amount) => amount > 0,
        ActionView::Debit(_, amount) => amount > 0,
        _ => true,
    }
}

// ---------------------------------------------------------------------------
// The wallets after an action
// ---------------------------------------------------------------------------

/// The users of `t` without a wallet in `m`, in order (repeats kept).
pub open spec fn missing_users(m: Map<u64, WalletRecord>, t: Seq<u64>) -> Seq<u64>
    decreases t.len(),
{
    if t.len() == 0 {
        seq![]
    } else if m.contains_key(t.last()) {
        missing_users(m, t.drop_last())
    } else {
        missing_users(m, t.drop_last()).push(t.last())
    }
}

/// The wallets after `init_user_if_new` for each user of `t` in turn.
pub open spec fn init_new_all(m: Map<u64, WalletRecord>, t: Seq<u64>, b: i64, now: Seq<char>) -> Map<
    u64,
    WalletRecord,
>
    decreases t.len(),
{
    if t.len() == 0 {
        m
    } else {
        init_user_if_new_spec(init_new_all(m, t.drop_last(), b, now), t.last(), b, now)
    }
}

/// How many distinct users of `t` have no wallet in `m`.
pub open spec fn count_new(m: Map<u64, WalletRecord>, t: Seq<u64>) -> nat
    decreases t.len(),
{
    if t.len() == 0 {
        0
    } else if m.contains_key(t.last()) || t.drop_last().contains(t.last()) {
        count_new(m, t.drop_last())
    } else {
        count_new(m, t.drop_last()) + 1
    }
}

/// The wallets after `init_user` for each user of `t` in turn.
pub open spec fn reset_all(m: Map<u64, WalletRecord>, t: Seq<u64>, b: i64, now: Seq<char>) -> Map<
    u64,
    WalletRecord,
>
    decreases t.len(),
{
    if t.len() == 0 {
        m
    } else {
        init_user_spec(reset_all(m, t.drop_last(), b, now), t.last(), b, now)
    }
}

/// The wallets after `add_balance` for each user of `t` in turn.
pub open spec fn credit_all(m: Map<u64, WalletRecord>, t: Seq<u64>, a: i64, now: Seq<char>) -> Map<
    u64,
    WalletRecord,
>
    decreases t.len(),
{
    if t.len() == 0 {
        m
    } else {
        add_balance_spec(credit_all(m, t.drop_last(), a, now), t.last(), a, now)
    }
}

/// The wallets after `subtract_balance` for each user of `t` in turn.
pub open spec fn debit_all(m: Map<u64, WalletRecord>, t: Seq<u64>, a: i64, now: Seq<char>) -> Map<
    u64,
    WalletRecord,
>
    decreases t.len(),
{
    if t.len() == 0 {
        m
    } else {
        subtract_balance_spec(debit_all(m, t.drop_last(), a, now), t.last(), a, now)
    }
}

/// The users of `t` whose debit went through, and those whose balance was
/// too small when their turn came.
pub open spec fn debit_split(m: Map<u64, WalletRecord>, t: Seq<u64>, a: i64, now: Seq<char>) -> (
    Seq<u64>,
    Seq<u64>,
)
    decreases t.len(),
{
    if t.len() == 0 {
        (seq![], seq![])
    } else {
        let (ok, bad) = debit_split(m, t.drop_last(), a, now);
        if can_subtract(debit_all(m, t.drop_last(), a, now), t.last(), a) {
            (ok.push(t.last()), bad)
        } else {
            (ok, bad.push(t.last()))
        }
    }
}

// ---------------------------------------------------------------------------
// The texts of the replies
// ---------------------------------------------------------------------------

/// The mentions of the users of `t`, separated by commas.
pub open spec fn mention_list(t: Seq<u64>) -> Seq<char> {
    join_spec(t.map_values(|u: u64| mention(u)), ", "@)
}

/// The refusal when some users have no wallet yet.
pub open spec fn not_initialized_text(missing: Seq<u64>) -> Seq<char> {
    "The following user(s) have not been initialized: **"@ + mention_list(missing)
        + "**. Use **wallet init** first."@
}

/// The line that shows the balance of `u`.
pub open spec fn balance_line(m: Map<u64, WalletRecord>, unit: Seq<char>, u: u64) -> Seq<char> {
    "**"@ + mention(u) + "**: "@ + balance_text(m[u].balance, unit)
}

/// The balances of the users of `t`, one per line.
pub open spec fn balance_lines(m: Map<u64, WalletRecord>, unit: Seq<char>, t: Seq<u64>) -> Seq<char> {
    join_spec(t.map_values(|u: u64| balance_line(m, unit, u)), "\n"@)
}

/// The report of an init.
pub open spec fn init_text(created: nat, skipped: nat, bal: Seq<char>) -> Seq<char> {
    if skipped == 0 {
        "Initialized **"@ + decimal(created) + "** user(s) with balance **"@ + bal + "**."@
    } else {
        "Initialized **"@ + decimal(created) + "** new user(s) with balance **"@ + bal
            + "**. Skipped **"@ + decimal(skipped) + "** already in wallet."@
    }
}

/// The report of a unit change.
pub open spec fn unit_text(unit: Seq<char>) -> Seq<char> {
    if unit.len() == 0 {
        "Wallet unit cleared (balance will show as number only)."@
    } else {
        "Wallet unit set to **"@ + unit + "**. Balances will display like: 1,000 "@ + unit
    }
}

/// The refusal to show the balance of a caller without a wallet.
pub open spec fn self_not_initialized_text() -> Seq<char> {
    "You have not been initialized. Use **wallet init** first."@
}

/// The wallets, the unit, the reply and whether the wallets must be saved,
/// after an action.
pub struct Applied {
    pub reply: ReplyView,
    pub users: Map<u64, WalletRecord>,
    pub unit: Seq<char>,
    pub save: bool,
}

/// What an action does to wallets `m` shown with `unit`, at time `now`.
/// Checks, credits and debits first make sure every user has a wallet, and
/// otherwise refuse and change nothing.
pub open spec fn apply_spec(a: ActionView, m: Map<u64, WalletRecord>, unit: Seq<char>, now: Seq<char>) -> Applied {
    match a {
        ActionView::Check(t) => {
            let missing = missing_users(m, t);
            if missing.len() > 0 {
                Applied {
                    reply: ReplyView::Notice(not_initialized_text(missing)),
                    users: m,
                    unit,
                    save: false,
                }
            } else {
                Applied {
                    reply: ReplyView::Embed("Wallet"@, balance_lines(m, unit, t), GREEN),
                    users: m,
                    unit,
                    save: false,
                }
            }
        },
        ActionView::SelfCheck(u) => {
            if m.contains_key(u) {
                Applied {
                    reply: ReplyView::Embed("Wallet"@, balance_line(m, unit, u), GREEN),
                    users: m,
                    unit,
                    save: false,
                }
            } else {
                Applied {
                    reply: ReplyView::Notice(self_not_initialized_text()),
                    users: m,
                    unit,
                    save: false,
                }
            }
        },
        ActionView::Init(t, b) => {
            let created = count_new(m, t);
            Applied {
                reply: ReplyView::Embed(
                    "Wallet Init"@,
                    init_text(created, (t.len() - created) as nat, balance_text(clamp_amount(b), unit)),
                    GREEN,
                ),
                users: init_new_all(m, t, b, now),
                unit,
                save: true,
            }
        },
        ActionView::Reset(t, b) => Applied {
            reply: ReplyView::Embed(
                "Wallet Reset"@,
                "Reset **"@ + decimal(t.len()) + "** user(s) to balance **"@ + balance_text(
                    clamp_amount(b),
                    unit,
                ) + "**."@,
                GREEN,
            ),
            users: reset_all(m, t, b, now),
            unit,
            save: true,
        },
        ActionView::Credit(t, amount) => {
            let missing = missing_users(m, t);
            if missing.len() > 0 {
                Applied {
                    reply: ReplyView::Notice(not_initialized_text(missing)),
                    users: m,
                    unit,
                    save: false,
                }
            } else {
                Applied {
                    reply: ReplyView::Embed(
                        "Wallet"@,
                        "Added **"@ + balance_text(clamp_amount(amount), unit) + "** to: "@
                            + mention_list(t),
                        GREEN,
                    ),
                    users: credit_all(m, t, amount, now),
                    unit,
                    save: true,
                }
            }
        },
        ActionView::Debit(t, amount) => {
            let missing = missing_users(m, t);
            if missing.len() > 0 {
                Applied {
                    reply: ReplyView::Notice(not_initialized_text(missing)),
                    users: m,
                    unit,
                    save: false,
                }
            } else {
                let (ok, bad) = debit_split(m, t, amount, now);
                Applied {
                    reply: if bad.len() == 0 {
                        ReplyView::Embed(
                            "Wallet"@,
                            "Removed **"@ + balance_text(clamp_amount(amount), unit) + "** from: "@
                                + mention_list(ok),
                            GREEN,
                        )
                    } else {
                        ReplyView::Embed(
                            "Wallet (partial)"@,
                            "Removed from: "@ + mention_list(ok) + ". Insufficient balance: "@
                                + mention_list(bad),
                            ORANGE,
                        )
                    },
                    users: debit_all(m, t, amount, now),
                    unit,
                    save: true,
                }
            }
        },
        ActionView::SetUnit(u) => Applied {
            reply: ReplyView::Embed("Wallet Unit"@, unit_text(u), GREEN),
            users: m,
            unit: u,
            save: true,
        },
    }
}

// ---------------------------------------------------------------------------
// Lemmas on the folds
// ---------------------------------------------------------------------------

/// When no user of `t` is missing, every user of `t` has a wallet.
pub proof fn lemma_none_missing(m: Map<u64, WalletRecord>, t: Seq<u64>)
    requires
        missing_users(m, t).len() == 0,
    ensures
        forall|i: int| 0 <= i < t.len() ==> m.contains_key(#[trigger] t[i]),
    decreases t.len(),
{
    if t.len() > 0 {
        lemma_none_missing(m, t.drop_last());
        assert forall|i: int| 0 <= i < t.len() implies m.contains_key(#[trigger] t[i]) by {
            if i < t.len() - 1 {
                assert(t.drop_last()[i] == t[i]);
            }
        }
    }
}

/// A user has a wallet after the inits of `s` exactly when it had one before
/// or is one of `s`.
pub proof fn lemma_init_new_dom(m: Map<u64, WalletRecord>, s: Seq<u64>, b: i64, now: Seq<char>, u: u64)
    ensures
        init_new_all(m, s, b, now).contains_key(u) <==> (m.contains_key(u) || s.contains(u)),
    decreases s.len(),
{
    if s.len() > 0 {
        lemma_init_new_dom(m, s.drop_last(), b, now, u);
        if s.contains(u) && s.last() != u {
            let k = choose|k: int| 0 <= k < s.len() && s[k] == u;
            assert(s.drop_last()[k] == u);
        }
        if s.drop_last().contains(u) {
            let k = choose|k: int| 0 <= k < s.drop_last().len() && s.drop_last()[k] == u;
            assert(s[k] == u);
        }
        if s.last() == u {
            assert(s[s.len() - 1] == u);
        }
    }
}

/// At most as many users are new as there are users.
pub proof fn lemma_count_new_bound(m: Map<u64, WalletRecord>, t: Seq<u64>)
    ensures
        count_new(m, t) <= t.len(),
    decreases t.len(),
{
    if t.len() > 0 {
        lemma_count_new_bound(m, t.drop_last());
    }
}

// ---------------------------------------------------------------------------
// Applying an action
// ---------------------------------------------------------------------------

/// The mentions of the users of `t`, separated by commas.
pub fn mention_list_string(t: &[u64]) -> (r: String)
    ensures
        r@ == mention_list(t@),
{
    let mut parts: Vec<String> = Vec::new();
    let mut i: usize = 0;
    while i < t.len()
        invariant
            i <= t@.len(),
            views(parts@) == t@.take(i as int).map_values(|u: u64| mention(u)),
        decreases t@.len() - i,
    {
        let ghost before = parts@;
        let s = user_mention(t[i]);
        let ghost sv = s@;
        parts.push(s);
        proof {
            assert(views(parts@) =~= views(before).push(sv));
            assert(t@.take(i + 1).map_values(|u: u64| mention(u)) =~= t@.take(i as int).map_values(
                |u: u64| mention(u),
            ).push(mention(t@[i as int])));
        }
        i = i + 1;
    }
    assert(t@.take(t@.len() as int) =~= t@);
    join(parts.as_slice(), ", ")
}

fn missing_of(data: &WalletData, t: &[u64]) -> (r: Vec<u64>)
    ensures
        r@ == missing_users(data@, t@),
{
    let mut r: Vec<u64> = Vec::new();
    let mut i: usize = 0;
    while i < t.len()
        invariant
            i <= t@.len(),
            r@ == missing_users(data@, t@.take(i as int)),
        decreases t@.len() - i,
    {
        assert(t@.take(i + 1).drop_last() =~= t@.take(i as int));
        if !data.has_user(t[i]) {
            r.push(t[i]);
        }
        i = i + 1;
    }
    assert(t@.take(t@.len() as int) =~= t@);
    r
}

fn balance_line_string(data: &WalletData, u: u64) -> (r: String)
    requires
        data@.contains_key(u),
    ensures
        r@ == balance_line(data@, data.unit@, u),
{
    let bal = match data.get_balance_if_exists(u) {
        Some(b) => b,
        None => 0,
    };
    let mut r = owned("**");
    r.append(user_mention(u).as_str());
    r.append("**: ");
    r.append(format_balance_with_unit(bal, data.unit.as_str()).as_str());
    r
}

fn balance_lines_string(data: &WalletData, t: &[u64]) -> (r: String)
    requires
        forall|i: int| 0 <= i < t@.len() ==> data@.contains_key(#[trigger] t@[i]),
    ensures
        r@ == balance_lines(data@, data.unit@, t@),
{
    let mut lines: Vec<String> = Vec::new();
    let mut i: usize = 0;
    while i < t.len()
        invariant
            i <= t@.len(),
            forall|i: int| 0 <= i < t@.len() ==> data@.contains_key(#[trigger] t@[i]),
            views(lines@) == t@.take(i as int).map_values(
                |u: u64| balance_line(data@, data.unit@, u),
            ),
        decreases t@.len() - i,
    {
        let ghost before = lines@;
        let s = balance_line_string(data, t[i]);
        let ghost sv = s@;
        lines.push(s);
        proof {
            assert(views(lines@) =~= views(before).push(sv));
            assert(t@.take(i + 1).map_values(|u: u64| balance_line(data@, data.unit@, u))
                =~= t@.take(i as int).map_values(|u: u64| balance_line(data@, data.unit@, u)).push(
                balance_line(data@, data.unit@, t@[i as int]),
            ));
        }
        i = i + 1;
    }
    assert(t@.take(t@.len() as int) =~= t@);
    join(lines.as_slice(), "\n")
}

fn init_each(data: &mut WalletData, t: &[u64], b: i64, now: &str) -> (created: usize)
    ensures
        final(data)@ == init_new_all(old(data)@, t@, b, now@),
        final(data).unit == old(data).unit,
        final(data).others == old(data).others,
        created == count_new(old(data)@, t@),
{
    let ghost m = data@;
    let mut created: usize = 0;
    let mut i: usize = 0;
    while i < t.len()
        invariant
            i <= t@.len(),
            data@ == init_new_all(m, t@.take(i as int), b, now@),
            data.unit == old(data).unit,
            data.others == old(data).others,
            created == count_new(m, t@.take(i as int)),
            created <= i,
        decreases t@.len() - i,
    {
        let u = t[i];
        proof {
            assert(t@.take(i + 1).drop_last() =~= t@.take(i as int));
            lemma_init_new_dom(m, t@.take(i as int), b, now@, u);
            lemma_count_new_bound(m, t@.take(i as int));
        }
        if data.init_user_if_new(u, b, now) {
            created = created + 1;
        }
        i = i + 1;
    }
    assert(t@.take(t@.len() as int) =~= t@);
    created
}

fn reset_each(data: &mut WalletData, t: &[u64], b: i64, now: &str)
    ensures
        final(data)@ == reset_all(old(data)@, t@, b, now@),
        final(data).unit == old(data).unit,
        final(data).others == old(data).others,
{
    let ghost m = data@;
    let mut i: usize = 0;
    while i < t.len()
        invariant
            i <= t@.len(),
            data@ == reset_all(m, t@.take(i as int), b, now@),
            data.unit == old(data).unit,
            data.others == old(data).others,
        decreases t@.len() - i,
    {
        assert(t@.take(i + 1).drop_last() =~= t@.take(i as int));
        data.init_user(t[i], b, now);
        i = i + 1;
    }
    assert(t@.take(t@.len() as int) =~= t@);
}

fn credit_each(data: &mut WalletData, t: &[u64], a: i64, now: &str)
    ensures
        final(data)@ == credit_all(old(data)@, t@, a, now@),
        final(data).unit == old(data).unit,
        final(data).others == old(data).others,
{
    let ghost m = data@;
    let mut i: usize = 0;
    while i < t.len()
        invariant
            i <= t@.len(),
            data@ == credit_all(m, t@.take(i as int), a, now@),
            data.unit == old(data).unit,
            data.others == old(data).others,
        decreases t@.len() - i,
    {
        assert(t@.take(i + 1).drop_last() =~= t@.take(i as int));
        data.add_balance(t[i], a, now);
        i = i + 1;
    }
    assert(t@.take(t@.len() as int) =~= t@);
}

fn debit_each(data: &mut WalletData, t: &[u64], a: i64, now: &str) -> (r: (Vec<u64>, Vec<u64>))
    ensures
        final(data)@ == debit_all(old(data)@, t@, a, now@),
        final(data).unit == old(data).unit,
        final(data).others == old(data).others,
        (r.0@, r.1@) == debit_split(old(data)@, t@, a, now@),
{
    let ghost m = data@;
    let mut ok: Vec<u64> = Vec::new();
    let mut bad: Vec<u64> = Vec::new();
    let mut i: usize = 0;
    while i < t.len()
        invariant
            i <= t@.len(),
            data@ == debit_all(m, t@.take(i as int), a, now@),
            data.unit == old(data).unit,
            data.others == old(data).others,
            (ok@, bad@) == debit_split(m, t@.take(i as int), a, now@),
        decreases t@.len() - i,
    {
        assert(t@.take(i + 1).drop_last() =~= t@.take(i as int));
        match data.subtract_balance(t[i], a, now) {
            Ok(_) => ok.push(t[i]),
            Err(_) => bad.push(t[i]),
        }
        i = i + 1;
    }
    assert(t@.take(t@.len() as int) =~= t@);
    (ok, bad)
}

fn notice(text: String) -> (r: Reply)
    ensures
        r@ == ReplyView::Notice(text@),
{
    Reply::Notice(text)
}

fn not_initialized_reply(missing: &[u64]) -> (r: Reply)
    ensures
        r@ == ReplyView::Notice(not_initialized_text(missing@)),
{
    let mut s = owned("The following user(s) have not been initialized: **");
    s.append(mention_list_string(missing).as_str());
    s.append("**. Use **wallet init** first.");
    Reply::Notice(s)
}

/// Applies `action` to the wallets in `data` at time `now`; returns the
/// reply and whether the wallets must be saved.
pub fn apply_action(action: WalletAction, data: &mut WalletData, now: &str) -> (r: (Reply, bool))
    requires
        action_ok(action@),
    ensures
        r.0@ == apply_spec(action@, old(data)@, old(data).unit@, now@).reply,
        final(data)@ == apply_spec(action@, old(data)@, old(data).unit@, now@).users,
        final(data).unit@ == apply_spec(action@, old(data)@, old(data).unit@, now@).unit,
        r.1 == apply_spec(action@, old(data)@, old(data).unit@, now@).save,
        final(data).others == old(data).others,
{
    match action {
        WalletAction::Check(t) => {
            let missing = missing_of(data, t.as_slice());
            if missing.len() > 0 {
                return (not_initialized_reply(missing.as_slice()), false);
            }
            proof {
                lemma_none_missing(data@, t@);
            }
            let text = balance_lines_string(data, t.as_slice());
            (Reply::Embed(owned("Wallet"), text, GREEN), false)
        },
        WalletAction::SelfCheck(u) => {
            if !data.has_user(u) {
                return (notice(owned("You have not been initialized. Use **wallet init** first.")), false);
            }
            let text = balance_line_string(data, u);
            (Reply::Embed(owned("Wallet"), text, GREEN), false)
        },
        WalletAction::Init(t, b) => {
            let ghost m = data@;
            let created = init_each(data, t.as_slice(), b, now);
            proof {
                lemma_count_new_bound(m, t@);
            }
            let skipped = t.len() - created;
            let bal: u64 = if b < 0 {
                0
            } else {
                b as u64
            };
            let bal_text = format_balance_with_unit(bal, data.unit.as_str());
            let mut s = owned("Initialized **");
            push_decimal(&mut s, created as u64);
            if skipped == 0 {
                s.append("** user(s) with balance **");
                s.append(bal_text.as_str());
                s.append("**.");
            } else {
                s.append("** new user(s) with balance **");
                s.append(bal_text.as_str());
                s.append("**. Skipped **");
                push_decimal(&mut s, skipped as u64);
                s.append("** already in wallet.");
            }
            (Reply::Embed(owned("Wallet Init"), s, GREEN), true)
        },
        WalletAction::Reset(t, b) => {
            reset_each(data, t.as_slice(), b, now);
            let bal: u64 = if b < 0 {
                0
            } else {
                b as u64
            };
            let mut s = owned("Reset **");
            push_decimal(&mut s, t.len() as u64);
            s.append("** user(s) to balance **");
            s.append(format_balance_with_unit(bal, data.unit.as_str()).as_str());
            s.append("**.");
            (Reply::Embed(owned("Wallet Reset"), s, GREEN), true)
        },
        WalletAction::Credit(t, a) => {
            let missing = missing_of(data, t.as_slice());
            if missing.len() > 0 {
                return (not_initialized_reply(missing.as_slice()), false);
            }
            credit_each(data, t.as_slice(), a, now);
            let mut s = owned("Added **");
            s.append(format_balance_with_unit(a as u64, data.unit.as_str()).as_str());
            s.append("** to: ");
            s.append(mention_list_string(t.as_slice()).as_str());
            (Reply::Embed(owned("Wallet"), s, GREEN), true)
        },
        WalletAction::Debit(t, a) => {
            let missing = missing_of(data, t.as_slice());
            if missing.len() > 0 {
                return (not_initialized_reply(missing.as_slice()), false);
            }
            let (ok, bad) = debit_each(data, t.as_slice(), a, now);
            if bad.len() == 0 {
                let mut s = owned("Removed **");
                s.append(format_balance_with_unit(a as u64, data.unit.as_str()).as_str());
                s.append("** from: ");
                s.append(mention_list_string(ok.as_slice()).as_str());
                (Reply::Embed(owned("Wallet"), s, GREEN), true)
            } else {
                let mut s = owned("Removed from: ");
                s.append(mention_list_string(ok.as_slice()).as_str());
                s.append(". Insufficient balance: ");
                s.append(mention_list_string(bad.as_slice()).as_str());
                (Reply::Embed(owned("Wallet (partial)"), s, ORANGE), true)
            }
        },
        WalletAction::SetUnit(u) => {
            let mut text = String::new();
            if u.as_str().is_empty() {
                text.append("Wallet unit cleared (balance will show as number only).");
            } else {
                text.append("Wallet unit set to **");
                text.append(u.as_str());
                text.append("**. Balances will display like: 1,000 ");
                text.append(u.as_str());
            }
            data.unit = u;
            (Reply::Embed(owned("Wallet Unit"), text, GREEN), true)
        },
    }
}

/// A UTC time stamp written `YYYY-MM-DDTHH:MM:SSZ`: a year of at least
/// four characters, then `-MM-DDTHH:MM:SS` with two digits per field, and a
/// closing `Z`; at least twenty characters in all.
pub open spec fn utc_stamp_shape(t: Seq<char>) -> bool {
    let n = t.len();
    &&& n >= 20
    &&& t[n - 1] == 'Z'
    &&& t[n - 16] == '-' && t[n - 13] == '-' && t[n - 10] == 'T'
    &&& t[n - 7] == ':' && t[n - 4] == ':'
    &&& forall|i: int|
        n - 15 <= i < n - 1 && i != n - 13 && i != n - 10 && i != n - 7 && i != n - 4 ==> is_digit(
            #[trigger] t[i],
        )
}

/// The current UTC time written as `YYYY-MM-DDTHH:MM:SSZ`, by
/// `chrono::Utc::now` and chrono's `format`. Which time it is depends on
/// the clock; what is claimed is only the shape that chrono documents for
/// these fields (the year zero-padded to at least four characters, the
/// others to two digits).
#[verifier::external_body]
fn now_iso() -> (r: String)
    ensures
        utc_stamp_shape(r@),
{
    chrono::Utc::now().format("%Y-%m-%dT%H:%M:%SZ").to_string()
}

/// Whether `reply`, `users`, `unit` and `save` are what applying `a` to `m`
/// and `old_unit` at time `now` gives.
pub open spec fn applied_at(
    a: ActionView,
    m: Map<u64, WalletRecord>,
    old_unit: Seq<char>,
    now: Seq<char>,
    reply: ReplyView,
    users: Map<u64, WalletRecord>,
    unit: Seq<char>,
    save: bool,
) -> bool {
    let ap = apply_spec(a, m, old_unit, now);
    &&& reply == ap.reply
    &&& users == ap.users
    &&& unit == ap.unit
    &&& save == ap.save
}

/// Applies `action` to the wallets at the current time, as
/// [`apply_action`] does at some time `now`.
pub fn execute(action: WalletAction, data: &mut WalletData) -> (r: (Reply, bool))
    requires
        action_ok(action@),
    ensures
        exists|now: Seq<char>|
            utc_stamp_shape(now) && #[trigger] applied_at(
                action@,
                old(data)@,
                old(data).unit@,
                now,
                r.0@,
                final(data)@,
                final(data).unit@,
                r.1,
            ),
        final(data).others == old(data).others,
{
    let now = now_iso();
    let ghost a = action@;
    let r = apply_action(action, data, now.as_str());
    assert(applied_at(a, old(data)@, old(data).unit@, now@, r.0@, data@, data.unit@, r.1));
    r
}

// ---------------------------------------------------------------------------
// Laws
// ---------------------------------------------------------------------------

/// Checking balances changes no wallet, no unit, and saves nothing.
pub proof fn law_checks_are_read_only(a: ActionView, m: Map<u64, WalletRecord>, unit: Seq<char>, now: Seq<char>)
    requires
        a is Check || a is SelfCheck,
    ensures
        apply_spec(a, m, unit, now).users == m,
        apply_spec(a, m, unit, now).unit == unit,
        !apply_spec(a, m, unit, now).save,
{
}

/// A check, credit or debit that names a user without a wallet is refused
/// with the list of those users, and changes and saves nothing.
pub proof fn law_uninitialized_target_refused(
    a: ActionView,
    m: Map<u64, WalletRecord>,
    unit: Seq<char>,
    now: Seq<char>,
    t: Seq<u64>,
)
    requires
        a == ActionView::Check(t) || (exists|x: i64| a == ActionView::Credit(t, x)) || (exists|x: i64|
            a == ActionView::Debit(t, x)),
        exists|i: int| 0 <= i < t.len() && !m.contains_key(#[trigger] t[i]),
    ensures
        apply_spec(a, m, unit, now).reply == ReplyView::Notice(
            not_initialized_text(missing_users(m, t)),
        ),
        apply_spec(a, m, unit, now).users == m,
        apply_spec(a, m, unit, now).unit == unit,
        !apply_spec(a, m, unit, now).save,
{
    if missing_users(m, t).len() == 0 {
        lemma_none_missing(m, t);
    }
}

/// Init keeps every wallet that existed and gives every target one; it
/// never reports more users created than it was given.
pub proof fn law_init_keeps_existing(
    m: Map<u64, WalletRecord>,
    t: Seq<u64>,
    b: i64,
    now: Seq<char>,
    u: u64,
)
    ensures
        m.contains_key(u) ==> init_new_all(m, t, b, now).contains_key(u) && init_new_all(
            m,
            t,
            b,
            now,
        )[u] == m[u],
        t.contains(u) ==> init_new_all(m, t, b, now).contains_key(u),
        count_new(m, t) <= t.len(),
    decreases t.len(),
{
    lemma_init_new_dom(m, t, b, now, u);
    lemma_count_new_bound(m, t);
    if t.len() > 0 {
        law_init_keeps_existing(m, t.drop_last(), b, now, u);
    }
}

/// After a reset every target holds the requested balance (0 when negative).
pub proof fn law_reset_sets_balance(m: Map<u64, WalletRecord>, t: Seq<u64>, b: i64, now: Seq<char>, i: int)
    requires
        0 <= i < t.len(),
    ensures
        reset_all(m, t, b, now).contains_key(t[i]),
        reset_all(m, t, b, now)[t[i]].balance == clamp_amount(b),
    decreases t.len(),
{
    if i < t.len() - 1 {
        law_reset_sets_balance(m, t.drop_last(), b, now, i);
        assert(t.drop_last()[i] == t[i]);
    }
}

/// A debit sorts every target into exactly one of the two lists: those
/// debited and those whose balance was too small.
pub proof fn law_debit_partition(m: Map<u64, WalletRecord>, t: Seq<u64>, a: i64, now: Seq<char>)
    ensures
        debit_split(m, t, a, now).0.len() + debit_split(m, t, a, now).1.len() == t.len(),
    decreases t.len(),
{
    if t.len() > 0 {
        law_debit_partition(m, t.drop_last(), a, now);
    }
}

/// A user of `t` that had no wallet holds, after the inits of `t`, the
/// requested balance (0 for a negative request) stamped `now`.
proof fn lemma_init_new_value(m: Map<u64, WalletRecord>, t: Seq<u64>, b: i64, now: Seq<char>, u: u64)
    requires
        !m.contains_key(u),
        t.contains(u),
    ensures
        init_new_all(m, t, b, now).contains_key(u),
        init_new_all(m, t, b, now)[u] == (WalletRecord {
            balance: if b < 0 {
                0
            } else {
                b as u64
            },
            updated_at: Some(now),
        }),
    decreases t.len(),
{
    let init = t.drop_last();
    if init.contains(u) {
        lemma_init_new_value(m, init, b, now, u);
    } else {
        let k = choose|k: int| 0 <= k < t.len() && t[k] == u;
        if k < t.len() - 1 {
            assert(init[k] == u);
        }
        assert(t.last() == u);
        lemma_init_new_dom(m, init, b, now, u);
    }
}

/// After an init of the users `t` with balance `b`, every user of `t` that
/// had no wallet holds `b` (0 when `b` is negative), stamped with the time
/// of the init; every user that had a wallet keeps it unchanged; nobody
/// else gets one; and the wallets are saved.
pub proof fn law_init_gives_each_new_user_the_balance(
    t: Seq<u64>,
    b: i64,
    m: Map<u64, WalletRecord>,
    unit: Seq<char>,
    now: Seq<char>,
    u: u64,
)
    ensures
        t.contains(u) && !m.contains_key(u) ==> {
            &&& apply_spec(ActionView::Init(t, b), m, unit, now).users.contains_key(u)
            &&& apply_spec(ActionView::Init(t, b), m, unit, now).users[u].balance == if b < 0 {
                0
            } else {
                b as u64
            }
            &&& apply_spec(ActionView::Init(t, b), m, unit, now).users[u].updated_at == Some(now)
        },
        m.contains_key(u) ==> {
            &&& apply_spec(ActionView::Init(t, b), m, unit, now).users.contains_key(u)
            &&& apply_spec(ActionView::Init(t, b), m, unit, now).users[u] == m[u]
        },
        !t.contains(u) && !m.contains_key(u) ==> !apply_spec(
            ActionView::Init(t, b),
            m,
            unit,
            now,
        ).users.contains_key(u),
        apply_spec(ActionView::Init(t, b), m, unit, now).save,
        apply_spec(ActionView::Init(t, b), m, unit, now).unit == unit,
{
    law_init_keeps_existing(m, t, b, now, u);
    lemma_init_new_dom(m, t, b, now, u);
    if t.contains(u) && !m.contains_key(u) {
        lemma_init_new_value(m, t, b, now, u);
    }
}

} // verus!
