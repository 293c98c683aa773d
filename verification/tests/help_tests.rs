use mewbot::bot_core::command::{CommandInfo, CommandLister, SubCommandInfo};
use mewbot::bot_core::permissions::PermissionLevel;
use mewbot::bot_core::plugin_api::PluginApi;
use mewbot::config::Config;
use mewbot::events::Style;
use mewbot::plugins::help::command::{create, find_command, help_page, parse_help_target, HelpEmbed};
use std::sync::Arc;

const WALLET_SUBS: [SubCommandInfo; 2] = [
    SubCommandInfo {
        name: "check",
        description: "Check wallet balance",
        aliases: &["bal", "balance"],
    },
    SubCommandInfo {
        name: "init",
        description: "Initialize wallets",
        aliases: &[],
    },
];

fn commands() -> Vec<CommandInfo> {
    vec![
        CommandInfo {
            name: "wallet".to_string(),
            description: "Manage wallets".to_string(),
            prefix: Some("wallet".to_string()),
            aliases: vec!["w".to_string(), "bal".to_string()],
            cooldown_secs: 2,
            required_permission: None,
            version: "1.0.0".to_string(),
            subcommands: WALLET_SUBS.to_vec(),
        },
        CommandInfo {
            name: "admin".to_string(),
            description: "Admin things".to_string(),
            prefix: None,
            aliases: vec![],
            cooldown_secs: 1,
            required_permission: Some(PermissionLevel::Admin),
            version: "2.0".to_string(),
            subcommands: vec![],
        },
    ]
}

fn fields(e: &HelpEmbed) -> Vec<(String, String, bool)> {
    e.fields.iter().map(|f| (f.name.clone(), f.value.clone(), f.inline)).collect()
}

struct FixedLister;

impl CommandLister for FixedLister {
    fn list(&self) -> Vec<CommandInfo> {
        commands()
    }
}

#[test]
fn help_targets() {
    assert_eq!(parse_help_target(None), (None, None));
    assert_eq!(parse_help_target(Some("   ")), (None, None));
    assert_eq!(parse_help_target(Some(" wallet ")), (Some("wallet".to_string()), None));
    assert_eq!(
        parse_help_target(Some("wallet  check extra")),
        (Some("wallet".to_string()), Some("check".to_string()))
    );
}

#[test]
fn overview_lists_commands() {
    let cs = commands();
    let (e, err) = help_page(Style::Slash, "m/", &cs, None, None);
    assert!(!err);
    assert_eq!(e.title, "Available Commands");
    assert_eq!(e.description, "• **wallet** - Manage wallets\n• **admin** - Admin things\n");
    assert_eq!(e.color, 0x0099ff);
    assert_eq!(
        e.footer.as_deref(),
        Some("Use /help <command> or m/help <command> for detailed info")
    );
    let (e, _) = help_page(Style::Prefix, "!", &cs, None, None);
    assert_eq!(e.footer.as_deref(), Some("Use !help <command> for detailed info"));
}

#[test]
fn command_page_with_subcommands() {
    let cs = commands();
    let (e, err) = help_page(Style::Slash, "m/", &cs, Some("WALLET"), None);
    assert!(!err);
    assert_eq!(e.title, "Help: wallet");
    assert_eq!(e.description, "Manage wallets");
    assert_eq!(
        fields(&e),
        vec![
            ("Slash".to_string(), "`/wallet`".to_string(), true),
            ("Prefix".to_string(), "`m/wallet`".to_string(), true),
            ("Aliases".to_string(), "`m/w`, `m/bal`".to_string(), false),
            ("Cooldown".to_string(), "2 seconds".to_string(), true),
            ("Permission".to_string(), "Any member".to_string(), true),
            ("Version".to_string(), "1.0.0".to_string(), true),
            (
                "Subcommands".to_string(),
                "• **check** (bal, balance) — Check wallet balance\n• **init** — Initialize wallets".to_string(),
                false
            ),
        ]
    );
    assert_eq!(
        e.footer.as_deref(),
        Some("Use /help wallet <subcommand> or m/help wallet <subcommand> for details")
    );
}

#[test]
fn command_page_without_subcommands() {
    let cs = commands();
    let (e, _) = help_page(Style::Prefix, "m/", &cs, Some("admin"), None);
    assert_eq!(
        fields(&e),
        vec![
            ("Slash".to_string(), "`/admin`".to_string(), true),
            ("Prefix".to_string(), "—".to_string(), true),
            ("Aliases".to_string(), "—".to_string(), false),
            ("Cooldown".to_string(), "1 seconds".to_string(), true),
            ("Permission".to_string(), "server admin".to_string(), true),
            ("Version".to_string(), "2.0".to_string(), true),
        ]
    );
    assert!(e.footer.is_none());
}

#[test]
fn subcommand_page() {
    let cs = commands();
    let (e, err) = help_page(Style::Slash, "m/", &cs, Some("wallet"), Some("BALANCE"));
    assert!(!err);
    assert_eq!(e.title, "Help: wallet check");
    assert_eq!(e.description, "Check wallet balance");
    assert_eq!(
        fields(&e),
        vec![
            ("Slash".to_string(), "`/wallet check`".to_string(), true),
            ("Prefix".to_string(), "`m/wallet check`".to_string(), true),
            ("Aliases".to_string(), "`m/wallet bal`, `m/wallet balance`".to_string(), false),
        ]
    );
    let (e, _) = help_page(Style::Slash, "m/", &cs, Some("wallet"), Some("init"));
    assert_eq!(fields(&e).len(), 2);
}

#[test]
fn unknown_names_are_reported() {
    let cs = commands();
    let (e, err) = help_page(Style::Slash, "m/", &cs, Some("nope"), None);
    assert!(err);
    assert_eq!(e.title, "Command Not Found");
    assert_eq!(e.description, "Command `nope` not found.");
    assert_eq!(e.color, 0xff0000);
    let (e, err) = help_page(Style::Slash, "m/", &cs, Some("wallet"), Some("zap"));
    assert!(err);
    assert_eq!(e.title, "Subcommand Not Found");
    assert_eq!(e.description, "Subcommand `zap` not found for command `wallet`.");
}

#[test]
fn find_command_ignores_case() {
    let cs = commands();
    assert_eq!(find_command(&cs, "ADMIN"), Some(1));
    assert_eq!(find_command(&cs, "missing"), None);
}

#[test]
fn help_command_reads_the_lister() {
    let config = Config {
        discord_token: "t".to_string(),
        command_prefix: "m/".to_string(),
        admin_user_id: None,
    };
    let help = create(PluginApi::new(config, Arc::new(FixedLister)));
    assert_eq!(help.name(), "help");
    assert_eq!(help.aliases(), vec!["h", "commands"]);
    assert_eq!(help.cooldown_secs(), 2);
    let cs = help.api.command_lister().list();
    let (e, err) = help.answer_slash(&cs, Some("wallet check"));
    assert!(!err);
    assert_eq!(e.title, "Help: wallet check");
    let (e, err) = help.answer_prefix(&cs, &["ghost"]);
    assert!(err);
    assert_eq!(e.description, "Command `ghost` not found.");
    let (e, _) = help.answer_prefix(&cs, &[]);
    assert_eq!(e.title, "Available Commands");
    assert_eq!(help.api.config().command_prefix, "m/");
    assert_eq!(help.api.command_lister().list().len(), 2);
}
