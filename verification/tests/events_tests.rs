use mewbot::bot_core::context::BotContext;
use mewbot::bot_core::permissions::PermissionLevel;
use mewbot::bot_core::reply::{Reply, Server};
use mewbot::config::Config;
use mewbot::events::{check_admission, finish, gate, prefix_command, Style};

const SEC: u128 = 1_000_000_000;

fn config(owner: Option<u64>) -> Config {
    Config {
        discord_token: "token".to_string(),
        command_prefix: "m/".to_string(),
        admin_user_id: owner,
    }
}

fn parts(r: &Reply) -> (String, String, u32) {
    match r {
        Reply::Embed(t, d, c) => (t.clone(), d.clone(), *c),
        Reply::Notice(t) => ("notice".to_string(), t.clone(), 0),
    }
}

#[test]
fn prefix_commands_are_found() {
    let (name, args) = prefix_command(false, "m/wallet add 5", "m/").unwrap();
    assert_eq!(name, "wallet");
    assert_eq!(args, vec!["add".to_string(), "5".to_string()]);
    let (name, args) = prefix_command(false, "m/  help\twallet  ", "m/").unwrap();
    assert_eq!(name, "help");
    assert_eq!(args, vec!["wallet".to_string()]);
    assert!(prefix_command(false, "m/   ", "m/").is_none());
    assert!(prefix_command(false, "hello m/wallet", "m/").is_none());
    assert!(prefix_command(true, "m/wallet", "m/").is_none());
}

#[test]
fn gate_refusals() {
    assert!(gate(Style::Slash, None, Server::Direct, None, 1).is_none());
    let r = gate(Style::Slash, Some(PermissionLevel::Admin), Server::Direct, None, 1).unwrap();
    assert_eq!(parts(&r).1, "This command can only be used in a server.");
    let r = gate(Style::Prefix, Some(PermissionLevel::Admin), Server::Unavailable, None, 1).unwrap();
    assert_eq!(parts(&r).1, "Could not load server information.");
    let r = gate(Style::Slash, Some(PermissionLevel::Admin), Server::Known(2, false), None, 1).unwrap();
    assert_eq!(
        parts(&r),
        (
            "Permission Denied".to_string(),
            "This command requires **server admin** permission.".to_string(),
            0xff0000
        )
    );
    let r = gate(Style::Prefix, Some(PermissionLevel::Admin), Server::Known(2, false), None, 1).unwrap();
    assert_eq!(
        parts(&r).1,
        "This command requires **server admin or owner** permission."
    );
    let r = gate(Style::Prefix, Some(PermissionLevel::Owner), Server::Known(1, true), None, 1).unwrap();
    assert_eq!(parts(&r).1, "This command requires **server owner** permission.");
    assert!(gate(Style::Slash, Some(PermissionLevel::Admin), Server::Known(1, false), None, 1).is_none());
    assert!(gate(Style::Slash, Some(PermissionLevel::Admin), Server::Known(2, true), None, 1).is_none());
    assert!(gate(Style::Slash, Some(PermissionLevel::Owner), Server::Known(2, false), Some(1), 1).is_none());
}

#[test]
fn cooldown_then_success_then_cooldown() {
    let mut ctx = BotContext::new(config(None));
    assert!(check_admission(&mut ctx, Style::Slash, None, Server::Direct, 7, "wallet", 2 * SEC, 10 * SEC).is_none());
    assert!(finish(&mut ctx, Style::Slash, 7, "wallet", 10 * SEC, Ok(())).is_none());
    let r = check_admission(&mut ctx, Style::Slash, None, Server::Direct, 7, "wallet", 3 * SEC, 11 * SEC).unwrap();
    assert_eq!(
        parts(&r),
        (
            "Cooldown".to_string(),
            "You are on cooldown for 2 seconds more seconds".to_string(),
            0xff0000
        )
    );
    let r = check_admission(&mut ctx, Style::Prefix, None, Server::Direct, 7, "wallet", 3 * SEC, 11 * SEC).unwrap();
    assert_eq!(parts(&r).1, "You are on cooldown for 2 seconds more seconds");
    assert!(check_admission(&mut ctx, Style::Slash, None, Server::Direct, 7, "wallet", 3 * SEC, 13 * SEC).is_none());
    assert!(check_admission(&mut ctx, Style::Slash, None, Server::Direct, 7, "help", 3 * SEC, 11 * SEC).is_none());
    assert!(check_admission(&mut ctx, Style::Slash, None, Server::Direct, 8, "wallet", 3 * SEC, 11 * SEC).is_none());
}

#[test]
fn failures_start_no_cooldown() {
    let mut ctx = BotContext::new(config(None));
    let r = finish(&mut ctx, Style::Slash, 7, "wallet", 10 * SEC, Err("boom".to_string())).unwrap();
    assert_eq!(parts(&r), ("Error".to_string(), "Error: boom".to_string(), 0xff0000));
    let r = finish(&mut ctx, Style::Prefix, 7, "wallet", 10 * SEC, Err("boom".to_string())).unwrap();
    assert_eq!(parts(&r).1, "Error: boom");
    assert!(check_admission(&mut ctx, Style::Slash, None, Server::Direct, 7, "wallet", 3 * SEC, 10 * SEC).is_none());
}

#[test]
fn bot_owner_has_no_cooldown() {
    let mut ctx = BotContext::new(config(Some(7)));
    finish(&mut ctx, Style::Slash, 7, "wallet", 10 * SEC, Ok(()));
    assert!(check_admission(&mut ctx, Style::Slash, None, Server::Direct, 7, "wallet", 3 * SEC, 10 * SEC).is_none());
    assert!(check_admission(
        &mut ctx,
        Style::Slash,
        Some(PermissionLevel::Owner),
        Server::Known(1, false),
        7,
        "wallet",
        3 * SEC,
        10 * SEC
    )
    .is_none());
}

#[test]
fn refusal_comes_before_cooldown() {
    let mut ctx = BotContext::new(config(None));
    finish(&mut ctx, Style::Slash, 7, "wallet", 10 * SEC, Ok(()));
    let r = check_admission(
        &mut ctx,
        Style::Slash,
        Some(PermissionLevel::Admin),
        Server::Known(1, false),
        7,
        "wallet",
        3 * SEC,
        11 * SEC,
    )
    .unwrap();
    assert_eq!(parts(&r).0, "Permission Denied");
}
