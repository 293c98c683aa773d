use mewbot::bot_core::data::data_path;
use mewbot::bot_core::utils::logger::{log_internal, log_line, LogLevel};
use mewbot::cli::{
    already_exists_message, check_plugin_name, generate_plugin, show_config, show_version,
    to_pascal_case, update_plugins_mod, VarLookup,
};
use mewbot::updater::{
    current_arch, current_os, download_url, find_asset_for_current_platform, is_newer,
    latest_json_url, lower_hex, temp_file_name, update_check, verify_sha256, FileEntry,
    LatestRelease, UpdateCheck,
};

#[test]
fn pascal_case() {
    assert_eq!(to_pascal_case("my_cool_plugin"), "MyCoolPlugin");
    assert_eq!(to_pascal_case("__a__b_"), "AB");
    assert_eq!(to_pascal_case("already"), "Already");
    assert_eq!(to_pascal_case(""), "");
    assert_eq!(to_pascal_case("x1_y2"), "X1Y2");
}

#[test]
fn plugin_names() {
    assert!(check_plugin_name("good_name_1").is_ok());
    assert!(check_plugin_name("été").is_ok());
    assert_eq!(
        check_plugin_name("bad-name").err().unwrap(),
        "Plugin name must contain only alphanumeric characters and underscores"
    );
    assert!(check_plugin_name("a b").is_err());
}

#[test]
fn generated_plugin_files() {
    let p = generate_plugin("demo_cmd").unwrap();
    assert_eq!(p.dir, "src/plugins/demo_cmd");
    assert_eq!(p.mod_content, "mod command;\n\npub use command::{create, DemoCmd};\n");
    assert!(p.command_content.contains("pub struct DemoCmd;"));
    assert!(p.command_content.contains("impl Command for DemoCmd {"));
    assert!(p.command_content.contains("        \"demo_cmd\"\n"));
    assert!(p.command_content.contains(".content(\"Response from demo_cmd command\")"));
    assert!(p.command_content.contains("Arc::new(DemoCmd)"));
    assert!(!p.command_content.contains("{0}"));
    assert!(!p.command_content.contains("{1}"));
    assert_eq!(p.created_mod_message, "Created src/plugins/demo_cmd/mod.rs");
    assert_eq!(p.created_command_message, "Created src/plugins/demo_cmd/command.rs");
    assert!(generate_plugin("x.y").is_err());
    assert_eq!(
        already_exists_message("src/plugins/x"),
        "Plugin directory already exists: src/plugins/x"
    );
}

#[test]
fn plugins_mod_update() {
    let content = "mod help;\nmod wallet;\n\npub fn register_commands() {\n    let help_cmd = help::create(api);\n}\n";
    let updated = update_plugins_mod(content, "demo");
    assert_eq!(
        updated,
        "mod help;\nmod wallet;\nmod demo;\n\npub fn register_commands() {\n    let demo_cmd = demo::create();\n    registry.register(demo_cmd.clone());\n    crate::done!(\"Loaded plugin {} v{}\", demo_cmd.name(), demo_cmd.version());\n\n        let help_cmd = help::create(api);\n}\n"
    );
    assert_eq!(update_plugins_mod(&updated, "demo"), updated);
    assert_eq!(update_plugins_mod("mod a;\nrest", "b"), "mod a;\nmod b;\nrest");
    assert_eq!(update_plugins_mod("single", "b"), "mod b;\nsingle");
}

#[test]
fn version_and_config_lines() {
    assert_eq!(show_version("0.1.0"), "Mewbot v0.1.0");
    assert_eq!(
        show_config("COMMAND_PREFIX", VarLookup::Found("m/".to_string())),
        Ok("COMMAND_PREFIX=m/".to_string())
    );
    assert_eq!(
        show_config("NOPE", VarLookup::Missing),
        Err("Config key 'NOPE' not found in environment".to_string())
    );
    assert_eq!(
        show_config("BAD", VarLookup::Unreadable("not unicode".to_string())),
        Err("Error reading config key 'BAD': not unicode".to_string())
    );
}

fn entry(name: &str, os: &str, arch: &str) -> FileEntry {
    FileEntry {
        name: name.to_string(),
        os: os.to_string(),
        arch: arch.to_string(),
        size: 1,
        sha256: String::new(),
    }
}

#[test]
fn platform_assets() {
    assert_eq!(current_arch("arm64"), "aarch64");
    assert_eq!(current_arch("x86_64"), "x86_64");
    assert_eq!(current_os("linux"), "linux");
    let files = vec![
        entry("a", "windows", "x86_64"),
        entry("b", "Linux", "AARCH64"),
        entry("c", "linux", "aarch64"),
    ];
    assert_eq!(find_asset_for_current_platform(&files, "linux", "arm64").unwrap().name, "b");
    assert!(find_asset_for_current_platform(&files, "macos", "x86_64").is_none());
    assert_eq!(find_asset_for_current_platform(&files, "windows", "x86_64").unwrap().name, "a");
}

#[test]
fn update_decisions() {
    let release = LatestRelease {
        current_version: None,
        version: "1.2.0".to_string(),
        tag: None,
        download_url_template: "https://example.com/{filename}".to_string(),
        files: vec![entry("a", "windows", "x86_64"), entry("b", "linux", "x86_64")],
    };
    match update_check(&release, "linux", "x86_64", "1.1.0") {
        UpdateCheck::Install(f) => assert_eq!(f.name, "b"),
        _ => panic!("expected an update"),
    }
    assert!(matches!(update_check(&release, "linux", "x86_64", "1.2.0"), UpdateCheck::UpToDate));
    assert!(matches!(update_check(&release, "linux", "x86_64", "2.0.0"), UpdateCheck::UpToDate));
    assert!(matches!(update_check(&release, "macos", "aarch64", "1.1.0"), UpdateCheck::NoFile));
}

#[test]
fn versions() {
    assert!(is_newer("1.0.0", "1.0.1"));
    assert!(is_newer("1.9.0", "1.10.0"));
    assert!(!is_newer("1.0.1", "1.0.0"));
    assert!(!is_newer("1.0.0", "1.0.0"));
    assert!(!is_newer("x", "1.0.0"));
    assert!(!is_newer("1.0.0", "v2"));
    assert!(is_newer("1.0.0-beta", "1.0.0"));
}

#[test]
fn downloads() {
    assert!(latest_json_url().ends_with("/latest.json"));
    assert_eq!(
        download_url("https://x/{filename}?f={filename}", "bot.exe"),
        "https://x/bot.exe?f=bot.exe"
    );
    assert_eq!(download_url("https://x/plain", "bot"), "https://x/plain");
    assert_eq!(temp_file_name("https://a/b/c.exe?x=1/2"), "2");
    assert_eq!(temp_file_name("https://a/b/c.exe?x=1"), "c.exe");
    assert_eq!(temp_file_name("plain?q"), "plain");
    assert_eq!(temp_file_name("dir/"), "");
}

#[test]
fn sha256_checks() {
    assert_eq!(lower_hex(&[0x0a, 0x14, 0x1e, 0xff]), "0a141eff");
    let abc_hash = "ba7816bf8f01cfea414140de5dae2223b00361a396177a9cb410ff61f20015ad";
    assert!(verify_sha256(b"abc", abc_hash).is_ok());
    assert!(verify_sha256(b"abc", &abc_hash.to_uppercase()).is_ok());
    assert_eq!(
        verify_sha256(b"abd", abc_hash).err().unwrap(),
        format!("sha256 mismatch: expected {}, got {}", abc_hash, "a52d159f262b2c6ddb724a61840befc36eb30c88877a4030b65cbe86298449c9")
    );
}

#[test]
fn log_lines() {
    assert_eq!(LogLevel::Info.label(), "INFO");
    assert_eq!(LogLevel::Error.label(), "ERRO");
    assert_eq!(LogLevel::Debug.color(), "\x1b[95m");
    assert_eq!(
        log_line(LogLevel::Done, "12:00:00", "ready", "src/core/events/ready.rs", 7),
        "\x1b[4m\x1b[90m12:00:00\x1b[0m \x1b[4m\x1b[90mready.rs:7\x1b[0m \x1b[1m\x1b[92m[DONE]\x1b[0m ready"
    );
    let line = log_internal(LogLevel::Warn, "careful", "main.rs", 1);
    assert!(line.ends_with("\x1b[1m\x1b[93m[WARN]\x1b[0m careful"));
    assert!(line.contains("main.rs:1"));
    let stamp: Vec<char> = line["\x1b[4m\x1b[90m".len()..].chars().take(8).collect();
    assert_eq!(stamp[2], ':');
    assert_eq!(stamp[5], ':');
    for i in [0, 1, 3, 4, 6, 7] {
        assert!(stamp[i].is_ascii_digit());
    }
    assert!(line[("\x1b[4m\x1b[90m".len() + 8)..].starts_with("\x1b[0m "));
}

#[test]
fn data_paths() {
    assert_eq!(data_path("wallet.json"), Ok("data/wallet.json".to_string()));
    assert_eq!(data_path("sub/x.json"), Ok("data/sub/x.json".to_string()));
    assert_eq!(data_path("/abs/x"), Ok("/abs/x".to_string()));
    assert_eq!(
        data_path("../secret"),
        Err("Filename must not contain '..'".to_string())
    );
}
