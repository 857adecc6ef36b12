use rustservant::config::{ConfigError, DiscordConfig, ServerConfig, ServersConfig};
use rustservant::number::IntErrorKind;

fn server(name: &str, token: &str, id: &str) -> ServerConfig {
    ServerConfig {
        name: name.to_string(),
        server_ip: "10.0.0.1".to_string(),
        server_port: 28082,
        player_id: id.to_string(),
        player_token: token.to_string(),
    }
}

fn two_servers() -> ServersConfig {
    let mut c = ServersConfig::new("main".to_string());
    c.insert_server("main".to_string(), server("Main", "-123", "76561198000000000"));
    c.insert_server("alt".to_string(), server("Alt", "55", "1"));
    c
}

#[test]
fn player_token_and_id_parse() {
    let s = server("A", "-123", "76561198000000000");
    assert_eq!(s.get_player_token_i32().unwrap(), -123);
    assert_eq!(s.get_player_id_u64().unwrap(), 76561198000000000);
}

#[test]
fn bad_player_token_reports_std_error() {
    let s = server("A", "12x", "abc");
    let e = s.get_player_token_i32().unwrap_err();
    assert!(matches!(e, ConfigError::InvalidPlayerToken(IntErrorKind::InvalidDigit)));
    assert_eq!(e.message(), "Failed to parse player_token: invalid digit found in string");
    let e = s.get_player_id_u64().unwrap_err();
    assert_eq!(e.message(), "Failed to parse player_id: invalid digit found in string");
    let s = server("A", "", "");
    assert_eq!(
        s.get_player_token_i32().unwrap_err().message(),
        "Failed to parse player_token: cannot parse integer from empty string"
    );
}

#[test]
fn active_server_is_found() {
    let c = two_servers();
    let s = c.get_active_server().unwrap();
    assert_eq!(s.name, "Main");
    assert_eq!(c.active_server(), "main");
}

#[test]
fn missing_active_server_is_reported() {
    let c = ServersConfig::new("gone".to_string());
    let e = c.get_active_server().unwrap_err();
    assert_eq!(e.message(), "Active server 'gone' not found in configuration");
}

#[test]
fn switch_then_active_law() {
    let mut c = two_servers();
    c.switch_server("alt").unwrap();
    assert_eq!(c.active_server(), "alt");
    assert_eq!(c.get_active_server().unwrap().name, "Alt");
}

#[test]
fn switch_to_unknown_fails_and_keeps_state() {
    let mut c = two_servers();
    let e = c.switch_server("nope").unwrap_err();
    assert_eq!(e.message(), "Server 'nope' not found");
    assert_eq!(c.active_server(), "main");
}

#[test]
fn remove_active_is_refused() {
    let mut c = two_servers();
    let e = c.remove_server("main").unwrap_err();
    assert!(matches!(e, ConfigError::ActiveServerRemoval));
    assert_eq!(
        e.message(),
        "Cannot remove the currently active server. Switch to another server first."
    );
    assert_eq!(c.list_servers().len(), 2);
}

#[test]
fn remove_unknown_is_refused() {
    let mut c = two_servers();
    assert_eq!(c.remove_server("zzz").unwrap_err().message(), "Server 'zzz' not found");
}

#[test]
fn remove_keeps_active_law() {
    let mut c = two_servers();
    c.remove_server("alt").unwrap();
    let list = c.list_servers();
    assert_eq!(list.len(), 1);
    assert_eq!(list[0].0, "main");
    assert_eq!(c.get_active_server().unwrap().name, "Main");
    assert!(c.switch_server("alt").is_err());
}

#[test]
fn insert_replaces_same_id() {
    let mut c = two_servers();
    c.insert_server("alt".to_string(), server("Alt 2", "1", "2"));
    let list = c.list_servers();
    assert_eq!(list.len(), 2);
    let alt = list.iter().find(|(id, _)| id == "alt").unwrap();
    assert_eq!(alt.1.name, "Alt 2");
}

#[test]
fn placeholder_bot_token_is_refused() {
    let cfg = DiscordConfig {
        bot_token: "YOUR_DISCORD_BOT_TOKEN_HERE".to_string(),
        application_id: 1,
        guild_id: 2,
    };
    let e = cfg.validate().unwrap_err();
    assert_eq!(e.message(), "Please set your Discord bot token in discord_config.json");
    let cfg = DiscordConfig { bot_token: "abc".to_string(), application_id: 1, guild_id: 2 };
    let ok = cfg.validate().unwrap();
    assert_eq!(ok.bot_token, "abc");
    assert_eq!(ok.guild_id, 2);
}
