use mewbot::bot_core::permissions::PermissionLevel;
use mewbot::bot_core::reply::{Reply, Server};
use mewbot::plugins::wallet::actions::{apply_action, execute, WalletAction};
use mewbot::plugins::wallet::command::{
    caller_level, filter_human_mentions, format_balance_with_unit, format_number_u64,
    plan_with_members, user_mention, MemberGoal, Plan, Wallet,
};
use mewbot::plugins::wallet::store::WalletData;

fn notice_text(p: &Plan) -> String {
    match p {
        Plan::Answer(Reply::Notice(t)) => t.clone(),
        _ => panic!("expected a notice"),
    }
}

fn checked(p: &Plan) -> Vec<u64> {
    match p {
        Plan::Run(WalletAction::Check(t)) => t.clone(),
        _ => panic!("expected a check"),
    }
}

fn reply_parts(r: &Reply) -> (String, String, u32) {
    match r {
        Reply::Embed(t, d, c) => (t.clone(), d.clone(), *c),
        Reply::Notice(t) => ("notice".to_string(), t.clone(), 0),
    }
}

#[test]
fn number_grouping() {
    assert_eq!(format_number_u64(0), "0");
    assert_eq!(format_number_u64(999), "999");
    assert_eq!(format_number_u64(1000), "1,000");
    assert_eq!(format_number_u64(1234567), "1,234,567");
    assert_eq!(format_number_u64(u64::MAX), "18,446,744,073,709,551,615");
}

#[test]
fn balance_with_unit() {
    assert_eq!(format_balance_with_unit(1000, " xu "), "1,000 xu");
    assert_eq!(format_balance_with_unit(5, "   "), "5");
    assert_eq!(format_balance_with_unit(12345, ""), "12,345");
}

#[test]
fn mentions() {
    assert_eq!(user_mention(42), "<@42>");
    assert_eq!(filter_human_mentions(&[(1, false), (2, true), (3, false)]), vec![1, 3]);
    assert!(filter_human_mentions(&[(2, true)]).is_empty());
}

#[test]
fn caller_levels() {
    match caller_level(Server::Direct, None, 1) {
        Err(Reply::Notice(t)) => assert_eq!(t, "This command can only be used in a server."),
        _ => panic!(),
    }
    match caller_level(Server::Unavailable, None, 1) {
        Err(Reply::Notice(t)) => assert_eq!(t, "Could not load server information."),
        _ => panic!(),
    }
    assert!(matches!(caller_level(Server::Known(1, false), Some(9), 9), Ok(PermissionLevel::Owner)));
    assert!(matches!(caller_level(Server::Known(1, false), Some(9), 1), Ok(PermissionLevel::Admin)));
    assert!(matches!(caller_level(Server::Known(1, true), None, 5), Ok(PermissionLevel::Admin)));
    assert!(matches!(caller_level(Server::Known(1, false), None, 5), Ok(PermissionLevel::Member)));
}

#[test]
fn subcommand_table() {
    let w = Wallet;
    let subs = w.subcommands();
    let names: Vec<&str> = subs.iter().map(|s| s.name).collect();
    assert_eq!(names, vec!["check", "credit", "debit", "init", "reset", "unit"]);
    assert_eq!(w.resolve_subcommand("BAL"), Some("check"));
    assert_eq!(w.resolve_subcommand("add"), Some("credit"));
    assert_eq!(w.resolve_subcommand("Sub"), Some("debit"));
    assert_eq!(w.resolve_subcommand("nope"), None);
    assert_eq!(w.name(), "wallet");
    assert_eq!(w.prefix(), Some("wallet"));
    assert_eq!(w.aliases(), vec!["w", "bal", "balance"]);
    assert_eq!(w.cooldown_secs(), 2);
    assert_eq!(w.version(), "1.0.0");
    assert!(w.required_permission_level().is_none());
}

#[test]
fn slash_member_sees_own_wallet_only() {
    let w = Wallet;
    let p = w.plan_slash(None, None, None, None, 5, PermissionLevel::Member, &[]);
    assert_eq!(checked(&p), vec![5]);
    let p = w.plan_slash(Some("check"), Some(6), None, None, 5, PermissionLevel::Member, &[]);
    assert_eq!(
        notice_text(&p),
        "You need **bot owner** or **server admin** to view others' wallets."
    );
    let p = w.plan_slash(Some("check"), Some(6), None, None, 5, PermissionLevel::Member, &[(6, true)]);
    assert_eq!(notice_text(&p), "Bots and application accounts are not supported.");
    let p = w.plan_slash(Some("credit"), None, Some(5), None, 5, PermissionLevel::Member, &[]);
    assert_eq!(
        notice_text(&p),
        "You need **bot owner** or **server admin** to credit/debit balance."
    );
    let p = w.plan_slash(Some("unit"), None, None, Some("xu"), 5, PermissionLevel::Member, &[]);
    assert_eq!(
        notice_text(&p),
        "You need **bot owner** or **server admin** to set the wallet unit."
    );
    let p = w.plan_slash(Some("whatever"), None, None, None, 5, PermissionLevel::Member, &[]);
    assert!(matches!(p, Plan::Run(WalletAction::SelfCheck(5))));
}

#[test]
fn slash_admin_plans() {
    let w = Wallet;
    let p = w.plan_slash(Some("check"), Some(6), None, None, 5, PermissionLevel::Admin, &[]);
    assert_eq!(checked(&p), vec![6]);
    let p = w.plan_slash(Some("init"), None, Some(-3), None, 5, PermissionLevel::Admin, &[]);
    assert!(matches!(p, Plan::NeedMembers(MemberGoal::Init, 0)));
    let p = w.plan_slash(Some("reset"), Some(7), Some(40), None, 5, PermissionLevel::Owner, &[]);
    match p {
        Plan::Run(WalletAction::Reset(t, b)) => {
            assert_eq!(t, vec![7]);
            assert_eq!(b, 40);
        }
        _ => panic!(),
    }
    let p = w.plan_slash(Some("init"), Some(7), None, None, 5, PermissionLevel::Admin, &[(7, true)]);
    assert_eq!(notice_text(&p), "Bots and application accounts are not supported.");
    let p = w.plan_slash(Some("debit"), None, Some(0), None, 5, PermissionLevel::Admin, &[]);
    assert_eq!(notice_text(&p), "Invalid amount (must be positive).");
    let p = w.plan_slash(Some("debit"), Some(8), Some(3), None, 5, PermissionLevel::Admin, &[]);
    match p {
        Plan::Run(WalletAction::Debit(t, a)) => {
            assert_eq!(t, vec![8]);
            assert_eq!(a, 3);
        }
        _ => panic!(),
    }
    let p = w.plan_slash(Some("unit"), None, None, Some("  coins "), 5, PermissionLevel::Admin, &[]);
    match p {
        Plan::Run(WalletAction::SetUnit(u)) => assert_eq!(u, "coins"),
        _ => panic!(),
    }
}

#[test]
fn prefix_plans() {
    let w = Wallet;
    let p = w.plan_prefix(&[], 5, PermissionLevel::Member, &[]);
    assert_eq!(checked(&p), vec![5]);
    let p = w.plan_prefix(&["BAL"], 5, PermissionLevel::Member, &[(9, false)]);
    assert_eq!(
        notice_text(&p),
        "You need **bot owner** or **server admin** to view others' wallets."
    );
    let p = w.plan_prefix(&["balance"], 5, PermissionLevel::Admin, &[(9, false), (10, true)]);
    assert_eq!(checked(&p), vec![9]);
    let p = w.plan_prefix(&["ADD", "100"], 5, PermissionLevel::Admin, &[]);
    match p {
        Plan::Run(WalletAction::Credit(t, a)) => {
            assert_eq!(t, vec![5]);
            assert_eq!(a, 100);
        }
        _ => panic!(),
    }
    let p = w.plan_prefix(&["add", "<@9>", "100"], 5, PermissionLevel::Admin, &[(9, false)]);
    assert_eq!(notice_text(&p), "Invalid amount (positive number required).");
    let p = w.plan_prefix(&["remove", "5"], 5, PermissionLevel::Member, &[]);
    assert_eq!(
        notice_text(&p),
        "You need **bot owner** or **server admin** to remove balance."
    );
    let p = w.plan_prefix(&["init", "abc", "-5", "7"], 5, PermissionLevel::Admin, &[]);
    assert!(matches!(p, Plan::NeedMembers(MemberGoal::Init, 7)));
    let p = w.plan_prefix(&["reset"], 5, PermissionLevel::Admin, &[(3, false)]);
    match p {
        Plan::Run(WalletAction::Reset(t, b)) => {
            assert_eq!(t, vec![3]);
            assert_eq!(b, 0);
        }
        _ => panic!(),
    }
    let p = w.plan_prefix(&["unit", " xu "], 5, PermissionLevel::Admin, &[]);
    match p {
        Plan::Run(WalletAction::SetUnit(u)) => assert_eq!(u, "xu"),
        _ => panic!(),
    }
    let p = w.plan_prefix(&["unit"], 5, PermissionLevel::Admin, &[]);
    match p {
        Plan::Run(WalletAction::SetUnit(u)) => assert_eq!(u, ""),
        _ => panic!(),
    }
    let p = w.plan_prefix(&["<@9>"], 5, PermissionLevel::Admin, &[(9, false)]);
    assert_eq!(checked(&p), vec![9]);
    let p = w.plan_prefix(&["<@9>"], 5, PermissionLevel::Member, &[(9, false)]);
    assert_eq!(
        notice_text(&p),
        "You need **bot owner** or **server admin** to view others' wallets."
    );
    let p = w.plan_prefix(&["hello"], 5, PermissionLevel::Member, &[]);
    assert_eq!(checked(&p), vec![5]);
}

#[test]
fn member_step() {
    let p = plan_with_members(MemberGoal::Init, 0, &[], &[]);
    assert_eq!(
        notice_text(&p),
        "No users to init (could not load server members from cache or API)."
    );
    let p = plan_with_members(MemberGoal::Reset, 0, &[], &[]);
    assert_eq!(
        notice_text(&p),
        "No users to reset (could not load server members from cache or API)."
    );
    let p = plan_with_members(MemberGoal::Init, 3, &[5], &[(5, true)]);
    assert_eq!(notice_text(&p), "Bots and application accounts are not supported.");
    let p = plan_with_members(MemberGoal::Init, 3, &[5, 6], &[]);
    match p {
        Plan::Run(WalletAction::Init(t, b)) => {
            assert_eq!(t, vec![5, 6]);
            assert_eq!(b, 3);
        }
        _ => panic!(),
    }
}

#[test]
fn check_refuses_uninitialized_users() {
    let mut d = WalletData::new();
    d.init_user(1, 10, "t");
    let (r, save) = apply_action(WalletAction::Check(vec![1, 2, 3]), &mut d, "now");
    assert!(!save);
    assert_eq!(
        reply_parts(&r).1,
        "The following user(s) have not been initialized: **<@2>, <@3>**. Use **wallet init** first."
    );
    assert_eq!(d.get_balance_if_exists(1), Some(10));
    assert!(!d.has_user(2));
}

#[test]
fn check_shows_balances() {
    let mut d = WalletData::new();
    d.init_user(1, 1000, "t");
    d.init_user(2, 5, "t");
    d.unit = "xu".to_string();
    let (r, save) = apply_action(WalletAction::Check(vec![1, 2]), &mut d, "now");
    assert!(!save);
    assert_eq!(
        reply_parts(&r),
        ("Wallet".to_string(), "**<@1>**: 1,000 xu\n**<@2>**: 5 xu".to_string(), 0x00ff00)
    );
}

#[test]
fn self_check() {
    let mut d = WalletData::new();
    let (r, _) = apply_action(WalletAction::SelfCheck(4), &mut d, "now");
    assert_eq!(
        reply_parts(&r).1,
        "You have not been initialized. Use **wallet init** first."
    );
    d.init_user(4, 2500, "t");
    let (r, save) = apply_action(WalletAction::SelfCheck(4), &mut d, "now");
    assert!(!save);
    assert_eq!(reply_parts(&r), ("Wallet".to_string(), "**<@4>**: 2,500".to_string(), 0x00ff00));
}

#[test]
fn init_reports_created_and_skipped() {
    let mut d = WalletData::new();
    d.init_user(1, 10, "t");
    let (r, save) = apply_action(WalletAction::Init(vec![1, 2, 3, 2], 50), &mut d, "now");
    assert!(save);
    assert_eq!(
        reply_parts(&r),
        (
            "Wallet Init".to_string(),
            "Initialized **2** new user(s) with balance **50**. Skipped **2** already in wallet.".to_string(),
            0x00ff00
        )
    );
    assert_eq!(d.get_balance_if_exists(1), Some(10));
    assert_eq!(d.get_balance_if_exists(2), Some(50));
    let mut e = WalletData::new();
    let (r, _) = apply_action(WalletAction::Init(vec![7], 0), &mut e, "now");
    assert_eq!(reply_parts(&r).1, "Initialized **1** user(s) with balance **0**.");
}

#[test]
fn reset_sets_every_target() {
    let mut d = WalletData::new();
    d.init_user(1, 10, "t");
    d.unit = "coins".to_string();
    let (r, save) = apply_action(WalletAction::Reset(vec![1, 2], 1234), &mut d, "now");
    assert!(save);
    assert_eq!(reply_parts(&r).1, "Reset **2** user(s) to balance **1,234 coins**.");
    assert_eq!(d.get_balance_if_exists(1), Some(1234));
    assert_eq!(d.get_balance_if_exists(2), Some(1234));
}

#[test]
fn credit_and_debit_actions() {
    let mut d = WalletData::new();
    d.init_user(1, 10, "t");
    d.init_user(2, 100, "t");
    let (r, save) = apply_action(WalletAction::Credit(vec![1, 2], 5), &mut d, "now");
    assert!(save);
    assert_eq!(reply_parts(&r).1, "Added **5** to: <@1>, <@2>");
    assert_eq!(d.get_balance_if_exists(1), Some(15));
    let (r, save) = apply_action(WalletAction::Debit(vec![1, 2], 50), &mut d, "now");
    assert!(save);
    assert_eq!(
        reply_parts(&r),
        (
            "Wallet (partial)".to_string(),
            "Removed from: <@2>. Insufficient balance: <@1>".to_string(),
            0xffaa00
        )
    );
    assert_eq!(d.get_balance_if_exists(1), Some(15));
    assert_eq!(d.get_balance_if_exists(2), Some(55));
    let (r, _) = apply_action(WalletAction::Debit(vec![2], 5), &mut d, "now");
    assert_eq!(reply_parts(&r), ("Wallet".to_string(), "Removed **5** from: <@2>".to_string(), 0x00ff00));
    let (r, save) = apply_action(WalletAction::Credit(vec![9], 5), &mut d, "now");
    assert!(!save);
    assert_eq!(
        reply_parts(&r).1,
        "The following user(s) have not been initialized: **<@9>**. Use **wallet init** first."
    );
    assert!(!d.has_user(9));
}

#[test]
fn unit_changes() {
    let mut d = WalletData::new();
    let (r, save) = apply_action(WalletAction::SetUnit("xu".to_string()), &mut d, "now");
    assert!(save);
    assert_eq!(d.unit, "xu");
    assert_eq!(
        reply_parts(&r),
        (
            "Wallet Unit".to_string(),
            "Wallet unit set to **xu**. Balances will display like: 1,000 xu".to_string(),
            0x00ff00
        )
    );
    let (r, _) = apply_action(WalletAction::SetUnit(String::new()), &mut d, "now");
    assert_eq!(d.unit, "");
    assert_eq!(
        reply_parts(&r).1,
        "Wallet unit cleared (balance will show as number only)."
    );
}

#[test]
fn execute_stamps_the_current_time() {
    let mut d = WalletData::new();
    let (_, save) = execute(WalletAction::Init(vec![1], 3), &mut d);
    assert!(save);
    let stamp = d.users.get(&1).unwrap().updated_at.clone().unwrap();
    assert_eq!(stamp.len(), 20);
    assert!(stamp.ends_with('Z'));
    let c: Vec<char> = stamp.chars().collect();
    assert_eq!((c[4], c[7], c[10], c[13], c[16]), ('-', '-', 'T', ':', ':'));
    assert_eq!(d.get_balance_if_exists(1), Some(3));
}
