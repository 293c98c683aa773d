//! Wallets without a display unit: one balance per user id.
use crate::plugins::wallet::store::{
    add_balance_spec, balance_after_add, can_subtract, clamp_amount, get_balance_spec,
    init_user_if_new_spec, init_user_spec, insufficient_balance_text, record_or_empty,
    subtract_balance_spec, table_add, table_balance, table_get_balance, table_has, table_init,
    table_init_if_new, table_subtract, table_view, WalletRecord,
};
pub use crate::plugins::wallet::store::UserWallet;
use std::collections::HashMap;
use vstd::prelude::*;

verus! {

/// All wallets, keyed by user id. Entries of the saved file whose key is not
/// the decimal text of a user id are kept apart in `others`, untouched.
pub struct WalletData {
    pub users: HashMap<u64, UserWallet>,
    pub others: Vec<(String, UserWallet)>,
}

impl View for WalletData {
    type V = Map<u64, WalletRecord>;

    open spec fn view(&self) -> Map<u64, WalletRecord> {
        table_view(self.users@)
    }
}

impl WalletData {
    /// No wallets.
    pub fn new() -> (r: Self)
        ensures
            r@ == Map::<u64, WalletRecord>::empty(),
            r.others@.len() == 0,
    {
        let r = WalletData { users: HashMap::new(), others: Vec::new() };
        assert(r@ =~= Map::<u64, WalletRecord>::empty());
        r
    }

    /// Whether `user_id` has been initialized (has a wallet).
    pub fn has_user(&self, user_id: u64) -> (r: bool)
        ensures
            r == self@.contains_key(user_id),
    {
        table_has(&self.users, user_id)
    }

    /// The balance of `user_id` if it has a wallet; creates nothing.
    pub fn get_balance_if_exists(&self, user_id: u64) -> (r: Option<u64>)
        ensures
            r == (if self@.contains_key(user_id) {
                Some(self@[user_id].balance)
            } else {
                None::<u64>
            }),
    {
        table_balance(&self.users, user_id)
    }

    /// The balance of `user_id`, giving it an empty wallet if it has none.
    pub fn get_balance(&mut self, user_id: u64) -> (r: u64)
        ensures
            final(self)@ == get_balance_spec(old(self)@, user_id),
            final(self).others == old(self).others,
            r == record_or_empty(old(self)@, user_id).balance,
    {
        table_get_balance(&mut self.users, user_id)
    }

    /// Adds `amount` (clamped to 0) to the balance, saturating at `u64::MAX`.
    pub fn add_balance(&mut self, user_id: u64, amount: i64, now_iso: &str) -> (r: u64)
        ensures
            final(self)@ == add_balance_spec(old(self)@, user_id, amount, now_iso@),
            final(self).others == old(self).others,
            r == balance_after_add(old(self)@, user_id, amount),
    {
        table_add(&mut self.users, user_id, amount, now_iso)
    }

    /// Subtracts `amount` (clamped to 0); fails with "Insufficient balance"
    /// when the balance is smaller.
    pub fn subtract_balance(&mut self, user_id: u64, amount: i64, now_iso: &str) -> (r: Result<
        u64,
        String,
    >)
        ensures
            final(self)@ == subtract_balance_spec(old(self)@, user_id, amount, now_iso@),
            final(self).others == old(self).others,
            can_subtract(old(self)@, user_id, amount) <==> r is Ok,
            r matches Ok(b) ==> b == record_or_empty(old(self)@, user_id).balance - clamp_amount(
                amount,
            ),
            r matches Err(e) ==> e@ == insufficient_balance_text(),
    {
        table_subtract(&mut self.users, user_id, amount, now_iso)
    }

    /// Sets the wallet of `user_id` to `balance` (clamped to 0).
    pub fn init_user(&mut self, user_id: u64, balance: i64, now_iso: &str)
        ensures
            final(self)@ == init_user_spec(old(self)@, user_id, balance, now_iso@),
            final(self).others == old(self).others,
    {
        table_init(&mut self.users, user_id, balance, now_iso)
    }

    /// Creates the wallet of `user_id` only if it has none; returns whether
    /// it was created.
    pub fn init_user_if_new(&mut self, user_id: u64, balance: i64, now_iso: &str) -> (r: bool)
        ensures
            final(self)@ == init_user_if_new_spec(old(self)@, user_id, balance, now_iso@),
            final(self).others == old(self).others,
            r == !old(self)@.contains_key(user_id),
    {
        table_init_if_new(&mut self.users, user_id, balance, now_iso)
    }
}

} // verus!
