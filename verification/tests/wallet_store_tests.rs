use mewbot::plugins::wallet::store::{wallet_key, WalletData};

#[test]
fn new_wallets_are_empty() {
    let d = WalletData::new();
    assert!(!d.has_user(1));
    assert_eq!(d.get_balance_if_exists(1), None);
    assert_eq!(d.unit, "");
    assert!(d.others.is_empty());
}

#[test]
fn default_wallets_are_empty() {
    let d = WalletData::default();
    assert!(!d.has_user(7));
    assert_eq!(d.unit, "");
}

#[test]
fn init_then_read_gives_balance() {
    let mut d = WalletData::new();
    d.init_user(1, 100, "2025-01-01T00:00:00Z");
    assert!(d.has_user(1));
    assert_eq!(d.get_balance_if_exists(1), Some(100));
    assert_eq!(
        d.users.get(&1).unwrap().updated_at.as_deref(),
        Some("2025-01-01T00:00:00Z")
    );
    assert!(!d.has_user(2));
}

#[test]
fn init_with_negative_balance_gives_zero() {
    let mut d = WalletData::new();
    d.init_user(3, -50, "t");
    assert_eq!(d.get_balance_if_exists(3), Some(0));
}

#[test]
fn credit_then_debit_restores_balance() {
    let mut d = WalletData::new();
    d.init_user(1, 100, "t0");
    assert_eq!(d.add_balance(1, 50, "t1"), 150);
    assert_eq!(d.subtract_balance(1, 50, "t2"), Ok(100));
    assert_eq!(d.get_balance_if_exists(1), Some(100));
}

#[test]
fn debit_refused_when_balance_too_small() {
    let mut d = WalletData::new();
    d.init_user(1, 10, "t0");
    assert_eq!(
        d.subtract_balance(1, 11, "t1"),
        Err("Insufficient balance".to_string())
    );
    assert_eq!(d.get_balance_if_exists(1), Some(10));
    assert_eq!(d.users.get(&1).unwrap().updated_at.as_deref(), Some("t0"));
    assert_eq!(d.subtract_balance(1, 10, "t2"), Ok(0));
}

#[test]
fn debit_of_unknown_user_creates_empty_wallet() {
    let mut d = WalletData::new();
    assert!(d.subtract_balance(9, 1, "t").is_err());
    assert_eq!(d.get_balance_if_exists(9), Some(0));
    assert_eq!(d.users.get(&9).unwrap().updated_at, None);
}

#[test]
fn credit_saturates_at_max() {
    let mut d = WalletData::new();
    d.init_user(2, i64::MAX, "t");
    assert_eq!(d.add_balance(2, i64::MAX, "t"), 18446744073709551614);
    assert_eq!(d.add_balance(2, i64::MAX, "t"), u64::MAX);
    assert_eq!(d.get_balance_if_exists(2), Some(u64::MAX));
}

#[test]
fn negative_credit_counts_as_zero() {
    let mut d = WalletData::new();
    d.init_user(1, 5, "t");
    assert_eq!(d.add_balance(1, -100, "t2"), 5);
    assert_eq!(d.subtract_balance(1, -100, "t3"), Ok(5));
}

#[test]
fn init_if_new_keeps_existing_wallet() {
    let mut d = WalletData::new();
    d.init_user(1, 5, "t");
    assert!(!d.init_user_if_new(1, 99, "t2"));
    assert_eq!(d.get_balance_if_exists(1), Some(5));
    assert!(d.init_user_if_new(2, 99, "t2"));
    assert_eq!(d.get_balance_if_exists(2), Some(99));
}

#[test]
fn get_balance_creates_empty_wallet() {
    let mut d = WalletData::new();
    assert_eq!(d.get_balance(4), 0);
    assert!(d.has_user(4));
    d.init_user(4, 12, "t");
    assert_eq!(d.get_balance(4), 12);
}

#[test]
fn operations_touch_one_user() {
    let mut d = WalletData::new();
    d.init_user(1, 10, "a");
    d.init_user(2, 20, "b");
    d.add_balance(1, 5, "c");
    let _ = d.subtract_balance(1, 3, "d");
    assert_eq!(d.get_balance_if_exists(2), Some(20));
    assert_eq!(d.users.get(&2).unwrap().updated_at.as_deref(), Some("b"));
}

#[test]
fn wallet_keys_are_decimal_ids() {
    assert_eq!(wallet_key("123"), Some(123));
    assert_eq!(wallet_key("0"), Some(0));
    assert_eq!(wallet_key("18446744073709551615"), Some(u64::MAX));
    assert_eq!(wallet_key("0123"), None);
    assert_eq!(wallet_key("+5"), None);
    assert_eq!(wallet_key("abc"), None);
    assert_eq!(wallet_key(""), None);
    assert_eq!(wallet_key("18446744073709551616"), None);
}

#[test]
fn old_store_behaves_the_same() {
    let mut d = mewbot::wallet_store::WalletData::new();
    assert!(!d.has_user(1));
    d.init_user(1, 100, "t");
    assert_eq!(d.add_balance(1, 1, "t"), 101);
    assert!(d.subtract_balance(1, 500, "t").is_err());
    assert_eq!(d.get_balance_if_exists(1), Some(101));
    assert!(!d.init_user_if_new(1, 0, "t"));
    assert_eq!(d.get_balance(8), 0);
}
