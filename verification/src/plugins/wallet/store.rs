//! Wallet bookkeeping: one balance per user id, with the time of its last
//! change, and the display unit of all balances.
use crate::text::{
    all_digits, decimal, decimal_string, digit_char, digit_value, digits_value, is_digit, owned,
    parse_u64, parse_u64_spec, same_text, string_of,
};
use std::collections::HashMap;
use vstd::prelude::*;

verus! {

broadcast use vstd::std_specs::hash::group_hash_axioms;

/// One user's wallet: a balance between 0 and `u64::MAX`, and the time of the
/// last change, if any.
pub struct UserWallet {
    pub balance: u64,
    pub updated_at: Option<String>,
}

/// What a wallet holds, as plain values.
pub struct WalletRecord {
    pub balance: u64,
    pub updated_at: Option<Seq<char>>,
}

/// The characters of an optional string.
pub open spec fn opt_view(o: Option<String>) -> Option<Seq<char>> {
    match o {
        Some(s) => Some(s@),
        None => None,
    }
}

impl View for UserWallet {
    type V = WalletRecord;

    open spec fn view(&self) -> WalletRecord {
        WalletRecord { balance: self.balance, updated_at: opt_view(self.updated_at) }
    }
}

/// The record of every user in a table of wallets.
pub open spec fn table_view(users: Map<u64, UserWallet>) -> Map<u64, WalletRecord> {
    users.map_values(|w: UserWallet| w@)
}

/// The amount that a signed request stands for: negative requests count as 0.
pub open spec fn clamp_amount(amount: i64) -> u64 {
    if amount < 0 {
        0
    } else {
        amount as u64
    }
}

/// The record of user `u`, or an empty wallet when `u` has none.
pub open spec fn record_or_empty(m: Map<u64, WalletRecord>, u: u64) -> WalletRecord {
    if m.contains_key(u) {
        m[u]
    } else {
        WalletRecord { balance: 0, updated_at: None }
    }
}

/// The wallets after `get_balance(u)`: `u` has a wallet, empty if it was new.
pub open spec fn get_balance_spec(m: Map<u64, WalletRecord>, u: u64) -> Map<u64, WalletRecord> {
    m.insert(u, record_or_empty(m, u))
}

/// `b + a`, or `u64::MAX` when the sum does not fit.
pub open spec fn saturating_sum(b: u64, a: u64) -> u64 {
    if b + a > u64::MAX {
        u64::MAX
    } else {
        (b + a) as u64
    }
}

/// The balance of `u` after `add_balance(u, amount, _)`.
pub open spec fn balance_after_add(m: Map<u64, WalletRecord>, u: u64, amount: i64) -> u64 {
    saturating_sum(record_or_empty(m, u).balance, clamp_amount(amount))
}

/// The wallets after `add_balance(u, amount, now)`.
pub open spec fn add_balance_spec(m: Map<u64, WalletRecord>, u: u64, amount: i64, now: Seq<char>) -> Map<
    u64,
    WalletRecord,
> {
    m.insert(u, WalletRecord { balance: balance_after_add(m, u, amount), updated_at: Some(now) })
}

/// Whether `subtract_balance(u, amount, _)` succeeds: the balance covers it.
pub open spec fn can_subtract(m: Map<u64, WalletRecord>, u: u64, amount: i64) -> bool {
    record_or_empty(m, u).balance >= clamp_amount(amount)
}

/// The wallets after `subtract_balance(u, amount, now)`. On a refusal `u`
/// still gets a wallet (an empty one if it had none) and nothing else changes.
pub open spec fn subtract_balance_spec(m: Map<u64, WalletRecord>, u: u64, amount: i64, now: Seq<char>) -> Map<
    u64,
    WalletRecord,
> {
    let e = record_or_empty(m, u);
    if can_subtract(m, u, amount) {
        m.insert(
            u,
            WalletRecord { balance: (e.balance - clamp_amount(amount)) as u64, updated_at: Some(now) },
        )
    } else {
        m.insert(u, e)
    }
}

/// The wallets after `init_user(u, balance, now)`: `u` holds `balance`
/// (0 when negative), whatever it held before.
pub open spec fn init_user_spec(m: Map<u64, WalletRecord>, u: u64, balance: i64, now: Seq<char>) -> Map<
    u64,
    WalletRecord,
> {
    m.insert(u, WalletRecord { balance: clamp_amount(balance), updated_at: Some(now) })
}

/// The wallets after `init_user_if_new(u, balance, now)`: only a user
/// without a wallet gets one.
pub open spec fn init_user_if_new_spec(m: Map<u64, WalletRecord>, u: u64, balance: i64, now: Seq<char>) -> Map<
    u64,
    WalletRecord,
> {
    if m.contains_key(u) {
        m
    } else {
        init_user_spec(m, u, balance, now)
    }
}

/// The text of the error that a refused subtraction gives.
pub open spec fn insufficient_balance_text() -> Seq<char> {
    seq!['I', 'n', 's', 'u', 'f', 'f', 'i', 'c', 'i', 'e', 'n', 't', ' ', 'b', 'a', 'l', 'a', 'n', 'c', 'e']
}

fn clamp(amount: i64) -> (r: u64)
    ensures
        r == clamp_amount(amount),
{
    if amount < 0 {
        0
    } else {
        amount as u64
    }
}

fn now_string(now: &str) -> (r: Option<String>)
    ensures
        opt_view(r) == Some(now@),
{
    Some(owned(now))
}

/// Whether `users` holds a wallet for `u`.
pub fn table_has(users: &HashMap<u64, UserWallet>, u: u64) -> (r: bool)
    ensures
        r == table_view(users@).contains_key(u),
{
    users.contains_key(&u)
}

/// The balance of `u` in `users`, if `u` has a wallet.
pub fn table_balance(users: &HashMap<u64, UserWallet>, u: u64) -> (r: Option<u64>)
    ensures
        r == (if table_view(users@).contains_key(u) {
            Some(table_view(users@)[u].balance)
        } else {
            None::<u64>
        }),
{
    match users.get(&u) {
        Some(w) => Some(w.balance),
        None => None,
    }
}

/// Gives `u` an empty wallet if it has none; returns its balance.
pub fn table_get_balance(users: &mut HashMap<u64, UserWallet>, u: u64) -> (r: u64)
    ensures
        table_view(final(users)@) == get_balance_spec(table_view(old(users)@), u),
        r == record_or_empty(table_view(old(users)@), u).balance,
{
    let ghost m = table_view(users@);
    match users.get(&u) {
        Some(w) => {
            let b = w.balance;
            assert(table_view(users@) =~= get_balance_spec(m, u));
            b
        },
        None => {
            users.insert(u, UserWallet { balance: 0, updated_at: None });
            assert(table_view(users@) =~= get_balance_spec(m, u));
            0
        },
    }
}

/// Adds `amount` (0 when negative) to the balance of `u`, stopping at
/// `u64::MAX`; a user without a wallet starts from 0. Returns the new balance.
pub fn table_add(users: &mut HashMap<u64, UserWallet>, u: u64, amount: i64, now: &str) -> (r: u64)
    ensures
        table_view(final(users)@) == add_balance_spec(table_view(old(users)@), u, amount, now@),
        r == balance_after_add(table_view(old(users)@), u, amount),
{
    let ghost m = table_view(users@);
    let a = clamp(amount);
    let b = match users.get(&u) {
        Some(w) => w.balance,
        None => 0,
    };
    let nb = b.saturating_add(a);
    users.insert(u, UserWallet { balance: nb, updated_at: now_string(now) });
    assert(table_view(users@) =~= add_balance_spec(m, u, amount, now@));
    nb
}

/// Takes `amount` (0 when negative) from the balance of `u`; refuses with
/// "Insufficient balance" when the balance is smaller. A user without a
/// wallet gets an empty one first. Returns the new balance.
pub fn table_subtract(users: &mut HashMap<u64, UserWallet>, u: u64, amount: i64, now: &str) -> (r:
    Result<u64, String>)
    ensures
        table_view(final(users)@) == subtract_balance_spec(table_view(old(users)@), u, amount, now@),
        can_subtract(table_view(old(users)@), u, amount) <==> r is Ok,
        r matches Ok(b) ==> b == record_or_empty(table_view(old(users)@), u).balance - clamp_amount(
            amount,
        ),
        r matches Err(e) ==> e@ == insufficient_balance_text(),
{
    let ghost m = table_view(users@);
    let a = clamp(amount);
    let b = match users.get(&u) {
        Some(w) => w.balance,
        None => {
            users.insert(u, UserWallet { balance: 0, updated_at: None });
            0
        },
    };
    if b < a {
        assert(table_view(users@) =~= subtract_balance_spec(m, u, amount, now@));
        let msg = string_of(
            &['I', 'n', 's', 'u', 'f', 'f', 'i', 'c', 'i', 'e', 'n', 't', ' ', 'b', 'a', 'l', 'a', 'n', 'c', 'e'],
        );
        return Err(msg);
    }
    let nb = b - a;
    users.insert(u, UserWallet { balance: nb, updated_at: now_string(now) });
    assert(table_view(users@) =~= subtract_balance_spec(m, u, amount, now@));
    Ok(nb)
}

/// Sets the wallet of `u` to `balance` (0 when negative), creating or
/// replacing it.
pub fn table_init(users: &mut HashMap<u64, UserWallet>, u: u64, balance: i64, now: &str)
    ensures
        table_view(final(users)@) == init_user_spec(table_view(old(users)@), u, balance, now@),
{
    let ghost m = table_view(users@);
    users.insert(u, UserWallet { balance: clamp(balance), updated_at: now_string(now) });
    assert(table_view(users@) =~= init_user_spec(m, u, balance, now@));
}

/// Creates the wallet of `u` with `balance` (0 when negative) unless `u`
/// already has one; returns whether it was created.
pub fn table_init_if_new(users: &mut HashMap<u64, UserWallet>, u: u64, balance: i64, now: &str) -> (r:
    bool)
    ensures
        table_view(final(users)@) == init_user_if_new_spec(table_view(old(users)@), u, balance, now@),
        r == !table_view(old(users)@).contains_key(u),
{
    if users.contains_key(&u) {
        return false;
    }
    table_init(users, u, balance, now);
    true
}

/// A credit followed by a debit of the same positive amount gives the user
/// back the balance it had, when the credit did not hit `u64::MAX`.
pub proof fn law_credit_then_debit_restores(
    m: Map<u64, WalletRecord>,
    u: u64,
    amount: i64,
    t1: Seq<char>,
    t2: Seq<char>,
)
    requires
        amount > 0,
        record_or_empty(m, u).balance + amount <= u64::MAX,
    ensures
        can_subtract(add_balance_spec(m, u, amount, t1), u, amount),
        subtract_balance_spec(add_balance_spec(m, u, amount, t1), u, amount, t2)[u].balance
            == record_or_empty(m, u).balance,
{
}

/// After a wallet is set, reading it gives the balance that was set (0 for a
/// negative request), and no other user's wallet changed.
pub proof fn law_read_after_init(m: Map<u64, WalletRecord>, u: u64, balance: i64, now: Seq<char>)
    ensures
        init_user_spec(m, u, balance, now).contains_key(u),
        init_user_spec(m, u, balance, now)[u].balance == clamp_amount(balance),
        forall|v: u64| v != u ==> (#[trigger] init_user_spec(m, u, balance, now).contains_key(v)
            == m.contains_key(v)) && (m.contains_key(v) ==> init_user_spec(m, u, balance, now)[v]
            == m[v]),
{
}

/// Initializing a user who already has a wallet changes nothing.
pub proof fn law_init_if_new_keeps_existing(
    m: Map<u64, WalletRecord>,
    u: u64,
    balance: i64,
    now: Seq<char>,
)
    requires
        m.contains_key(u),
    ensures
        init_user_if_new_spec(m, u, balance, now) == m,
{
}

/// A refused debit leaves the user's balance as it was; an accepted one
/// lowers it by the amount, so no balance ever goes below 0.
pub proof fn law_debit_never_overdraws(m: Map<u64, WalletRecord>, u: u64, amount: i64, now: Seq<char>)
    ensures
        !can_subtract(m, u, amount) ==> subtract_balance_spec(m, u, amount, now)[u].balance
            == record_or_empty(m, u).balance,
        can_subtract(m, u, amount) ==> subtract_balance_spec(m, u, amount, now)[u].balance
            + clamp_amount(amount) == record_or_empty(m, u).balance,
{
}

/// A credit never lowers a balance, and it adds the whole amount unless the
/// sum would pass `u64::MAX`, where it stops.
pub proof fn law_credit_saturates(m: Map<u64, WalletRecord>, u: u64, amount: i64, now: Seq<char>)
    ensures
        add_balance_spec(m, u, amount, now)[u].balance >= record_or_empty(m, u).balance,
        record_or_empty(m, u).balance + clamp_amount(amount) <= u64::MAX ==> add_balance_spec(
            m,
            u,
            amount,
            now,
        )[u].balance == record_or_empty(m, u).balance + clamp_amount(amount),
        record_or_empty(m, u).balance + clamp_amount(amount) > u64::MAX ==> add_balance_spec(
            m,
            u,
            amount,
            now,
        )[u].balance == u64::MAX,
{
}

/// Credit, debit and setting a wallet change the wallet of one user only.
pub proof fn law_operations_touch_one_user(
    m: Map<u64, WalletRecord>,
    u: u64,
    v: u64,
    amount: i64,
    now: Seq<char>,
)
    requires
        u != v,
    ensures
        add_balance_spec(m, u, amount, now).contains_key(v) == m.contains_key(v),
        subtract_balance_spec(m, u, amount, now).contains_key(v) == m.contains_key(v),
        init_user_spec(m, u, amount, now).contains_key(v) == m.contains_key(v),
        m.contains_key(v) ==> add_balance_spec(m, u, amount, now)[v] == m[v]
            && subtract_balance_spec(m, u, amount, now)[v] == m[v] && init_user_spec(
            m,
            u,
            amount,
            now,
        )[v] == m[v],
{
}

/// The user id that a key of the saved file stands for: the key must be
/// exactly the decimal text of the id, as the id's `to_string` writes it.
pub open spec fn canonical_key(key: Seq<char>) -> Option<u64> {
    match parse_u64_spec(key) {
        Some(n) => if decimal(n as nat) == key {
            Some(n)
        } else {
            None
        },
        None => None,
    }
}

/// The user id of a key of the saved file, if it is one.
pub fn wallet_key(key: &str) -> (r: Option<u64>)
    ensures
        r == canonical_key(key@),
{
    match parse_u64(key) {
        Some(n) => {
            let text = decimal_string(n);
            if same_text(text.as_str(), key) {
                Some(n)
            } else {
                None
            }
        },
        None => None,
    }
}

proof fn lemma_digit_char_value(d: int)
    requires
        0 <= d < 10,
    ensures
        digit_value(digit_char(d)) == d,
        is_digit(digit_char(d)),
        digit_char(d) != '+',
{
}

proof fn lemma_decimal_value(n: nat)
    ensures
        all_digits(decimal(n)),
        digits_value(decimal(n)) == n,
        decimal(n).len() > 0,
        decimal(n)[0] != '+',
    decreases n,
{
    if n < 10 {
        lemma_digit_char_value(n as int);
        assert(decimal(n).drop_last() =~= Seq::<char>::empty());
        assert(digits_value(decimal(n)) == digits_value(decimal(n).drop_last()) * 10 + digit_value(
            decimal(n).last(),
        ));
    } else {
        lemma_decimal_value(n / 10);
        lemma_digit_char_value((n % 10) as int);
        let s = decimal(n);
        assert(s.drop_last() =~= decimal(n / 10));
        assert(s[0] == decimal(n / 10)[0]);
        assert(digits_value(s) == digits_value(s.drop_last()) * 10 + digit_value(s.last()));
        assert((n / 10) * 10 + n % 10 == n);
    }
}

/// Keys and ids correspond one to one: the decimal text of an id is the key
/// of that id, and a key of an id is that id's decimal text.
pub proof fn law_key_round_trip(n: u64, key: Seq<char>)
    ensures
        canonical_key(decimal(n as nat)) == Some(n),
        canonical_key(key) == Some(n) ==> key == decimal(n as nat),
{
    lemma_decimal_value(n as nat);
}

/// All wallets, keyed by user id, and the unit shown after balances.
/// Entries of the saved file whose key is not the decimal text of a user id
/// are kept apart in `others`: no operation looks them up or changes them.
pub struct WalletData {
    pub users: HashMap<u64, UserWallet>,
    pub unit: String,
    pub others: Vec<(String, UserWallet)>,
}

impl View for WalletData {
    type V = Map<u64, WalletRecord>;

    open spec fn view(&self) -> Map<u64, WalletRecord> {
        table_view(self.users@)
    }
}

impl Default for WalletData {
    /// No wallets, and no unit.
    fn default() -> (r: Self)
        ensures
            r@ == Map::<u64, WalletRecord>::empty(),
            r.unit@ == Seq::<char>::empty(),
            r.others@.len() == 0,
    {
        WalletData::new()
    }
}

impl WalletData {
    /// No wallets, and no unit.
    pub fn new() -> (r: Self)
        ensures
            r@ == Map::<u64, WalletRecord>::empty(),
            r.unit@ == Seq::<char>::empty(),
            r.others@.len() == 0,
    {
        let r = WalletData { users: HashMap::new(), unit: String::new(), others: Vec::new() };
        assert(r@ =~= Map::<u64, WalletRecord>::empty());
        r
    }

    /// Whether `user_id` has been initialized (has a wallet).
    pub fn has_user(&self, user_id: u64) -> (r: bool)
        ensures
            r == self@.contains_key(user_id),
    {
        table_has(&self.users, user_id)
    }

    /// The balance of `user_id` if it has a wallet; creates nothing.
    pub fn get_balance_if_exists(&self, user_id: u64) -> (r: Option<u64>)
        ensures
            r == (if self@.contains_key(user_id) {
                Some(self@[user_id].balance)
            } else {
                None::<u64>
            }),
    {
        table_balance(&self.users, user_id)
    }

    /// The balance of `user_id`, giving it an empty wallet if it has none.
    pub fn get_balance(&mut self, user_id: u64) -> (r: u64)
        ensures
            final(self)@ == get_balance_spec(old(self)@, user_id),
            final(self).unit == old(self).unit,
            final(self).others == old(self).others,
            r == record_or_empty(old(self)@, user_id).balance,
    {
        table_get_balance(&mut self.users, user_id)
    }

    /// Adds `amount` (clamped to 0) to the balance, saturating at `u64::MAX`,
    /// and stamps the wallet with `now_iso`. Returns the new balance.
    pub fn add_balance(&mut self, user_id: u64, amount: i64, now_iso: &str) -> (r: u64)
        ensures
            final(self)@ == add_balance_spec(old(self)@, user_id, amount, now_iso@),
            final(self).unit == old(self).unit,
            final(self).others == old(self).others,
            r == balance_after_add(old(self)@, user_id, amount),
    {
        table_add(&mut self.users, user_id, amount, now_iso)
    }

    /// Subtracts `amount` (clamped to 0); fails with "Insufficient balance"
    /// when the balance is smaller, so a balance never goes below 0.
    pub fn subtract_balance(&mut self, user_id: u64, amount: i64, now_iso: &str) -> (r: Result<
        u64,
        String,
    >)
        ensures
            final(self)@ == subtract_balance_spec(old(self)@, user_id, amount, now_iso@),
            final(self).unit == old(self).unit,
            final(self).others == old(self).others,
            can_subtract(old(self)@, user_id, amount) <==> r is Ok,
            r matches Ok(b) ==> b == record_or_empty(old(self)@, user_id).balance - clamp_amount(
                amount,
            ),
            r matches Err(e) ==> e@ == insufficient_balance_text(),
    {
        table_subtract(&mut self.users, user_id, amount, now_iso)
    }

    /// Sets the wallet of `user_id` to `balance` (clamped to 0), creating or
    /// resetting it.
    pub fn init_user(&mut self, user_id: u64, balance: i64, now_iso: &str)
        ensures
            final(self)@ == init_user_spec(old(self)@, user_id, balance, now_iso@),
            final(self).unit == old(self).unit,
            final(self).others == old(self).others,
    {
        table_init(&mut self.users, user_id, balance, now_iso)
    }

    /// Creates the wallet of `user_id` only if it has none; returns whether
    /// it was created.
    pub fn init_user_if_new(&mut self, user_id: u64, balance: i64, now_iso: &str) -> (r: bool)
        ensures
            final(self)@ == init_user_if_new_spec(old(self)@, user_id, balance, now_iso@),
            final(self).unit == old(self).unit,
            final(self).others == old(self).others,
            r == !old(self)@.contains_key(user_id),
    {
        table_init_if_new(&mut self.users, user_id, balance, now_iso)
    }
}

} // verus!
