use mewbot::bot_core::command::{find_subcommand, resolve_subcommand, SubCommandInfo};
use mewbot::bot_core::context::BotContext;
use mewbot::bot_core::permissions::{
    get_permission_level, has_permission, required_permission_message, PermissionLevel,
};
use mewbot::bot_core::plugin_api::PluginApi;
use mewbot::bot_core::utils::{elapsed_millis, format_duration, format_elapsed, format_error, format_time_ago};
use mewbot::config::{config_error_message, Config, ConfigError};
use mewbot::keyed::KeyedList;
use mewbot::plugins::register_commands;
use mewbot::registry::Registry;
use mewbot::text::{
    contains, decimal_string, eq_ignore_ascii_case, join, parse_i64, parse_u64, replace,
    same_text, split_whitespace, starts_with, str_join, trim,
};
use std::sync::Arc;

const SEC: u128 = 1_000_000_000;

#[test]
fn text_helpers() {
    assert_eq!(parse_i64("-42"), Some(-42));
    assert_eq!(parse_i64("+7"), Some(7));
    assert_eq!(parse_i64("9223372036854775808"), None);
    assert_eq!(parse_i64("-9223372036854775808"), Some(i64::MIN));
    assert_eq!(parse_i64(""), None);
    assert_eq!(parse_i64("1a"), None);
    assert_eq!(parse_u64("18446744073709551615"), Some(u64::MAX));
    assert_eq!(parse_u64("-1"), None);
    assert_eq!(trim("\t a b \n"), "a b");
    assert_eq!(split_whitespace("  a  b\tc "), vec!["a", "b", "c"]);
    assert!(eq_ignore_ascii_case("WaLLet", "wallet"));
    assert!(!eq_ignore_ascii_case("wallet", "wallets"));
    assert!(contains("hello world", "o w"));
    assert!(!contains("hello", "hey"));
    assert!(starts_with("m/help", "m/"));
    assert!(!starts_with("m", "m/"));
    assert_eq!(replace("aaa", "aa", "b"), "ba");
    assert_eq!(replace("abc", "", "-"), "-a-b-c-");
    assert_eq!(replace("", "", "x"), "x");
    assert_eq!(join(&["a".to_string(), "b".to_string()], ", "), "a, b");
    assert_eq!(str_join(&["x", "y", "z"], "-"), "x-y-z");
    assert_eq!(str_join(&[], "-"), "");
    assert_eq!(decimal_string(1200), "1200");
    assert!(same_text("abc", "abc"));
    assert!(!same_text("abc", "abd"));
}

#[test]
fn permission_levels() {
    assert_eq!(get_permission_level(Some(9), 1, 9, false), PermissionLevel::Owner);
    assert_eq!(get_permission_level(Some(9), 1, 1, false), PermissionLevel::Admin);
    assert_eq!(get_permission_level(None, 1, 2, true), PermissionLevel::Admin);
    assert_eq!(get_permission_level(None, 1, 2, false), PermissionLevel::Member);
    assert!(has_permission(PermissionLevel::Owner, PermissionLevel::Admin));
    assert!(has_permission(PermissionLevel::Admin, PermissionLevel::Admin));
    assert!(!has_permission(PermissionLevel::Member, PermissionLevel::Admin));
    assert!(PermissionLevel::Owner > PermissionLevel::Admin);
    assert!(PermissionLevel::Admin > PermissionLevel::Member);
    assert_eq!(required_permission_message(PermissionLevel::Owner), "bot owner");
    assert_eq!(required_permission_message(PermissionLevel::Admin), "server admin");
    assert_eq!(required_permission_message(PermissionLevel::Member), "member");
    assert_eq!(
        mewbot::permissions::get_permission_level(1, 1, false),
        PermissionLevel::Owner
    );
    assert_eq!(
        mewbot::permissions::get_permission_level(1, 2, true),
        PermissionLevel::Admin
    );
    assert!(mewbot::permissions::has_permission(PermissionLevel::Owner, PermissionLevel::Owner));
}

#[test]
fn configuration() {
    let c = Config::from_values(Some("tok".to_string()), None, Some("123".to_string())).unwrap();
    assert_eq!(c.discord_token, "tok");
    assert_eq!(c.command_prefix, "m/");
    assert_eq!(c.admin_user_id, Some(123));
    assert!(c.is_admin(123));
    assert!(!c.is_admin(124));
    let c = Config::from_values(Some("tok".to_string()), Some("!".to_string()), Some("x".to_string())).unwrap();
    assert_eq!(c.command_prefix, "!");
    assert_eq!(c.admin_user_id, None);
    assert!(matches!(Config::from_values(None, None, None), Err(ConfigError::MissingToken)));
    assert_eq!(config_error_message(ConfigError::MissingToken), "DISCORD_TOKEN not found in environment");
}

#[test]
fn durations_and_errors() {
    assert_eq!(format_duration(0), "0 seconds");
    assert_eq!(format_duration(SEC), "1 second");
    assert_eq!(format_duration(59 * SEC + 999), "59 seconds");
    assert_eq!(format_duration(60 * SEC), "1 minute");
    assert_eq!(format_duration(150 * SEC), "2 minutes");
    assert_eq!(format_duration(3600 * SEC), "1 hour");
    assert_eq!(format_duration(7300 * SEC), "2 hours");
    // The longest duration there is: u64::MAX seconds and 999999999 nanoseconds.
    let longest = std::time::Duration::new(u64::MAX, 999_999_999).as_nanos();
    assert_eq!(format_duration(longest), "5124095576030431 hours");
    assert_eq!(format_error("boom"), "Error: boom");
    assert_eq!(format_elapsed(5_000), "5 seconds ago");
    assert_eq!(format_elapsed(120_000), "2 minutes ago");
    assert_eq!(format_elapsed(3 * 3_600_000), "3 hours ago");
    assert_eq!(format_elapsed(2 * 86_400_000), "2 days ago");
    assert_eq!(format_elapsed(65 * 86_400_000), "2 months ago");
    assert_eq!(format_elapsed(800 * 86_400_000), "2 years ago");
    assert_eq!(format_elapsed(-5_500), "-5 seconds ago");
    assert_eq!(elapsed_millis(10, 25), 15);
    assert_eq!(elapsed_millis(i64::MIN, i64::MAX), i64::MAX);
    assert!(format_time_ago(0).ends_with(" years ago"));
}

#[test]
fn cooldown_table() {
    let config = Config {
        discord_token: "t".to_string(),
        command_prefix: "m/".to_string(),
        admin_user_id: Some(1),
    };
    let mut ctx = BotContext::new(config);
    assert_eq!(ctx.check_cooldown(2, "wallet", 5 * SEC), None);
    ctx.set_cooldown(2, "wallet", 5 * SEC);
    assert_eq!(ctx.check_cooldown(2, "wallet", 6 * SEC), Some(SEC));
    assert_eq!(ctx.get_cooldown_remaining(2, "wallet", 3 * SEC, 6 * SEC), Some(2 * SEC));
    assert_eq!(ctx.get_cooldown_remaining(2, "wallet", 3 * SEC, 8 * SEC), None);
    assert_eq!(ctx.check_cooldown(2, "wallet", 5 * SEC + 3601 * SEC), None);
    assert_eq!(ctx.check_cooldown(2, "wallet", 5 * SEC), None);
    ctx.set_cooldown(1, "wallet", 5 * SEC);
    assert_eq!(ctx.check_cooldown(1, "wallet", 5 * SEC), None);
}

#[test]
fn keyed_list() {
    let mut k: KeyedList<String, u64> = KeyedList::new();
    k.insert("a".to_string(), 1);
    k.insert("b".to_string(), 2);
    k.insert("a".to_string(), 3);
    assert_eq!(k.get(&"a".to_string()), Some(3));
    assert!(k.contains_key(&"b".to_string()));
    assert_eq!(k.values(), vec![3, 2]);
    k.remove(&"a".to_string());
    assert_eq!(k.get(&"a".to_string()), None);
    k.clear();
    assert!(!k.contains_key(&"b".to_string()));
}

#[test]
fn all_commands_one_per_name() {
    let mut r = Registry::new();
    r.register("Wallet", Some("wallet"), &["w"], 0);
    r.register("help", None, &[], 1);
    r.register("WALLET", Some("bal"), &["x"], 2);
    r.register("ping", None, &["help"], 3);
    // Three distinct lowercased names; "wallet" lists the last command
    // registered under it, in the place where the name first came.
    assert_eq!(r.all_commands(), vec![2, 1, 3]);
    assert_eq!(r.get_slash_command("wallet"), Some(2));
    assert_eq!(r.get_prefix_command("bal"), Some(2));
    assert_eq!(r.get_prefix_command("help"), Some(1));
}

#[test]
fn registry_lookups() {
    let mut r = Registry::new();
    r.register("Wallet", Some("wallet"), &["w", "BAL"], 0);
    r.register("help", Some("help"), &["h", "w"], 1);
    assert_eq!(r.get_slash_command("WALLET"), Some(0));
    assert_eq!(r.get_prefix_command("bal"), Some(0));
    assert_eq!(r.get_prefix_command("w"), Some(0));
    assert_eq!(r.get_prefix_command("H"), Some(1));
    assert_eq!(r.get_prefix_command("nope"), None);
    assert_eq!(r.all_commands(), vec![0, 1]);
    r.refresh();
    assert_eq!(r.get_slash_command("help"), None);
    let d = Registry::default();
    assert!(d.all_commands().is_empty());
}

const SUBS: [SubCommandInfo; 2] = [
    SubCommandInfo { name: "check", description: "c", aliases: &["bal"] },
    SubCommandInfo { name: "credit", description: "d", aliases: &["add"] },
];

#[test]
fn subcommand_lookup() {
    assert_eq!(resolve_subcommand(&SUBS, "ADD"), Some("credit"));
    assert_eq!(resolve_subcommand(&SUBS, "Check"), Some("check"));
    assert_eq!(resolve_subcommand(&SUBS, "x"), None);
    assert_eq!(find_subcommand(&SUBS, "bal"), Some(0));
}

struct NoCommands;

impl mewbot::bot_core::command::CommandLister for NoCommands {
    fn list(&self) -> Vec<mewbot::bot_core::command::CommandInfo> {
        Vec::new()
    }
}

#[test]
fn plugins_are_registered() {
    let config = Config {
        discord_token: "t".to_string(),
        command_prefix: "m/".to_string(),
        admin_user_id: None,
    };
    let api = PluginApi::new(config, Arc::new(NoCommands));
    assert_eq!(api.config().command_prefix, "m/");
    let mut r = Registry::new();
    let loaded = register_commands(&mut r, api, 10, 11);
    assert_eq!(
        loaded.messages,
        vec!["Loaded plugin wallet v1.0.0 📦".to_string(), "Loaded plugin help v1.0.0 📦".to_string()]
    );
    assert_eq!(r.get_slash_command("wallet"), Some(10));
    assert_eq!(r.get_prefix_command("balance"), Some(10));
    assert_eq!(r.get_prefix_command("commands"), Some(11));
    assert_eq!(loaded.help.name(), "help");
}
