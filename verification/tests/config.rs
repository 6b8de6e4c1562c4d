use std::path::PathBuf;

use sync_service::config::{
    parse_cli_args, CliArgs, CliError, Config, ImmichConfig, UserConfig,
};

fn immich() -> ImmichConfig {
    ImmichConfig {
        server_url: String::new(),
        delete_threshold: 0,
        delete_max_age: 3650,
        delete_poll_interval: 0,
        import_poll_interval: 0,
        upload_poll_interval: 60,
    }
}

fn user(user_id: &str, path: &str) -> UserConfig {
    UserConfig { user_id: user_id.to_string(), user_key: String::new(), path: path.to_string() }
}

fn config(users: Vec<UserConfig>, exclude_extensions: Vec<&str>) -> Config {
    Config {
        database_path: "/data/sync.db".to_string(),
        event_log: Some("/data/events.jsonl".to_string()),
        immich: immich(),
        users,
        exclude_extensions: exclude_extensions.iter().map(|e| e.to_string()).collect(),
    }
}

#[test]
fn database_path_returns_absolute() {
    let config = Config {
        database_path: "/etc/sync/my.db".to_string(),
        event_log: None,
        immich: ImmichConfig {
            server_url: String::new(),
            delete_threshold: 0,
            delete_max_age: 3650,
            delete_poll_interval: 0,
            import_poll_interval: 0,
            upload_poll_interval: 60,
        },
        users: vec![],
        exclude_extensions: vec![],
    };
    assert_eq!(PathBuf::from(config.database_path()), PathBuf::from("/etc/sync/my.db"));
}

#[test]
fn extensions_keep_their_case_and_lose_leading_dots() {
    let read = Config::from_file(config(vec![user("u", "/p")], vec!["mp4", "MOV", "avi"]));
    assert_eq!(read.exclude_extensions, vec!["mp4", "MOV", "avi"]);
    assert_eq!(read.database_path, "/data/sync.db");
    assert_eq!(read.event_log.as_deref(), Some("/data/events.jsonl"));
    assert_eq!(read.immich, immich());
    assert_eq!(read.users, vec![user("u", "/p")]);
    let dotted = Config::from_file(config(vec![], vec![".mp4", "..tar.gz", ".", ""]));
    assert_eq!(dotted.exclude_extensions, vec!["mp4", "tar.gz", "", ""]);
    let none = Config::from_file(config(vec![], vec![]));
    assert!(none.exclude_extensions.is_empty());
}

#[test]
fn the_first_user_with_an_id_is_found() {
    let c = config(vec![user("a", "/1"), user("b", "/2"), user("b", "/3")], vec![]);
    assert_eq!(c.find_user("a"), Some(0));
    assert_eq!(c.find_user("b"), Some(1));
    assert_eq!(c.find_user("c"), None);
}

fn cli(args: &[&str]) -> Result<CliArgs, CliError> {
    parse_cli_args(&args.iter().map(|a| a.to_string()).collect())
}

fn asks(config_path: &str, dry_run: bool) -> Result<CliArgs, CliError> {
    Ok(CliArgs { config_path: config_path.to_string(), dry_run })
}

#[test]
fn an_empty_command_line_asks_for_the_defaults() {
    assert_eq!(cli(&[]), asks("config.toml", false));
    assert_eq!(cli(&["sync-service"]), asks("config.toml", false));
    assert_eq!(cli(&["--dry-run"]), asks("config.toml", false));
}

#[test]
fn command_lines() {
    assert_eq!(cli(&["p", "--config", "/my/config.toml"]), asks("/my/config.toml", false));
    assert_eq!(cli(&["p", "-n", "--config", "c"]), asks("c", true));
    assert_eq!(cli(&["p", "--config", "c", "--dry-run"]), asks("c", true));
    assert_eq!(cli(&["p", "--verbose", "x"]), asks("config.toml", false));
    assert_eq!(cli(&["p", "--config", "--dry-run"]), asks("--dry-run", false));
    assert_eq!(cli(&["p", "--config", "--config"]), asks("--config", false));
}

#[test]
fn the_last_config_decides() {
    assert_eq!(cli(&["p", "--config", "a", "-n", "--config", "b"]), asks("b", true));
}

#[test]
fn a_dry_run_is_not_taken_back() {
    assert_eq!(cli(&["p", "-n", "--config", "a", "x", "--dry-run"]), asks("a", true));
}

#[test]
fn config_needs_a_path() {
    assert_eq!(cli(&["p", "--config"]), Err(CliError::MissingConfigPath));
    assert_eq!(cli(&["p", "-n", "--config", "a", "--config"]), Err(CliError::MissingConfigPath));
}
