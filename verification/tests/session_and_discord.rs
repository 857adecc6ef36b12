use rustservant::discord::{saved_reply, SavedChange, SlashStep};
use rustservant::session::ReplySource;
use rustservant::config::{ServerConfig, ServersConfig};
use rustservant::discord::{
    current_reply, help_reply, load_failure_reply, missing_server_id_reply, pairing_started_reply,
    parse_slash_command, remove_reply, servers_reply, servers_unreadable_reply, switch_reply,
    unknown_slash_reply, DiscordCommand, PairingEvent, PairingMonitor, PairingPhase, SlashCommand,
};
use rustservant::server_state::{
    day_countdown_message, night_countdown_message, time_of_day_message, ServerInfo, ServerState,
};
use rustservant::session::{
    classify_command, is_auth_error, map_not_loaded_reply, ChatCommand, ChatSession, MarkerQuery,
    ReconnectAction, ReconnectPolicy, ReconnectStep,
};

fn server(name: &str) -> ServerConfig {
    ServerConfig {
        name: name.to_string(),
        server_ip: "1.2.3.4".to_string(),
        server_port: 28082,
        player_id: "7656".to_string(),
        player_token: "-5".to_string(),
    }
}

#[test]
fn chat_commands_are_classified() {
    assert_eq!(classify_command("hello"), None);
    assert_eq!(classify_command(" !help"), None);
    assert_eq!(classify_command("!help"), Some(ChatCommand::Help));
    assert_eq!(classify_command("!HELP  "), Some(ChatCommand::Help));
    assert_eq!(classify_command("!Time"), Some(ChatCommand::Time));
    assert_eq!(classify_command("!pop"), Some(ChatCommand::Pop));
    assert_eq!(classify_command("!info"), Some(ChatCommand::Info));
    assert_eq!(classify_command("!night"), Some(ChatCommand::Night));
    assert_eq!(classify_command("!day"), Some(ChatCommand::Day));
    assert_eq!(classify_command("!showevents"), Some(ChatCommand::ShowEvents));
    assert_eq!(classify_command("!getmarkers"), Some(ChatCommand::GetMarkers));
    assert_eq!(classify_command("!debugmarkers"), Some(ChatCommand::DebugMarkers));
    assert_eq!(classify_command("!mapdebug"), Some(ChatCommand::MapDebug));
    assert_eq!(classify_command("!testmonuments"), Some(ChatCommand::TestMonuments));
    assert_eq!(classify_command("!help me"), Some(ChatCommand::Unknown));
    assert_eq!(classify_command("!"), Some(ChatCommand::Unknown));
}

#[test]
fn chat_routing_and_fixed_replies() {
    assert_eq!(ChatCommand::ShowEvents.marker_query(), Some(MarkerQuery::Events));
    assert_eq!(ChatCommand::GetMarkers.marker_query(), Some(MarkerQuery::Summary));
    assert_eq!(ChatCommand::DebugMarkers.marker_query(), Some(MarkerQuery::Debug));
    assert_eq!(ChatCommand::Time.marker_query(), None);
    assert!(ChatCommand::ShowEvents.replies_in_chat());
    assert!(ChatCommand::Help.replies_in_chat());
    assert!(!ChatCommand::MapDebug.replies_in_chat());
    assert!(!ChatCommand::TestMonuments.replies_in_chat());
    assert!(!ChatCommand::GetMarkers.replies_in_chat());
    assert_eq!(
        ChatCommand::Help.fixed_reply().unwrap(),
        "Commands: !time, !night, !day, !pop, !info, !showevents"
    );
    assert_eq!(
        ChatCommand::Unknown.fixed_reply().unwrap(),
        "Unknown command. Type !help for available commands"
    );
    assert!(ChatCommand::Time.fixed_reply().is_none());
    assert_eq!(map_not_loaded_reply(), "Map data not loaded yet");
}

#[test]
fn chat_session_numbers_and_matches_replies() {
    let mut s = ChatSession::new();
    assert_eq!(s.next_seq(), 101);
    let q = s.begin_marker_query(MarkerQuery::Events);
    assert_eq!(q, 102);
    assert_eq!(s.take_marker_reply(7), None);
    assert_eq!(s.take_marker_reply(102), Some(MarkerQuery::Events));
    assert_eq!(s.take_marker_reply(102), None);
    assert_eq!(s.next_seq(), 103);
    assert!(s.can_issue());
}

#[test]
fn auth_errors() {
    assert!(is_auth_error("player not paired"));
    assert!(is_auth_error("bad_token"));
    assert!(is_auth_error("unauthorized"));
    assert!(is_auth_error("no_auth"));
    assert!(!is_auth_error("rate_limit"));
    assert!(!is_auth_error(""));
}

#[test]
fn reconnect_backoff_law() {
    let mut p = ReconnectPolicy::new();
    let mut delays = Vec::new();
    loop {
        match p.on_connection_end(ReconnectAction::Retry) {
            ReconnectStep::Reconnect { delay_secs } => delays.push(delay_secs),
            ReconnectStep::GiveUp => break,
            ReconnectStep::Shutdown => panic!("unexpected"),
        }
    }
    assert_eq!(delays, vec![2, 4, 8, 16]);
    assert_eq!(p.attempts(), 5);
}

#[test]
fn reconnect_switch_resets_and_stop_shuts_down() {
    let mut p = ReconnectPolicy::new();
    p.on_connection_end(ReconnectAction::Retry);
    p.on_connection_end(ReconnectAction::Retry);
    assert_eq!(p.attempts(), 2);
    assert_eq!(p.on_connection_end(ReconnectAction::SwitchServer), ReconnectStep::Reconnect { delay_secs: 1 });
    assert_eq!(p.attempts(), 0);
    assert_eq!(p.on_connection_end(ReconnectAction::Stop), ReconnectStep::Shutdown);
    assert_eq!(p.max_attempts(), 5);
}

#[test]
fn connection_banners() {
    let mut p = ReconnectPolicy::new();
    let s = server("Rustafied");
    assert_eq!(p.connection_banner(&s), "Connecting to: Rustafied (1.2.3.4:28082)\n");
    p.on_connection_end(ReconnectAction::Retry);
    assert_eq!(p.connection_banner(&s), "Reconnecting to: Rustafied (attempt 2/5)\n");
}

#[test]
fn server_state_replies() {
    let mut st = ServerState::new();
    assert_eq!(st.get_server_info(), None);
    assert_eq!(st.get_population_info(), None);
    assert_eq!(st.map_size_or_default(), 4000);
    st.info = Some(ServerInfo {
        name: "Rustafied.com - US Monday".to_string(),
        map_size: 3500,
        players: 45,
        max_players: 200,
        queued_players: 3,
    });
    assert_eq!(st.get_server_info().unwrap(), "Rustafied.com - US Monday");
    assert_eq!(st.get_population_info().unwrap(), "Players: 45/200 (3 in queue)");
    assert_eq!(st.map_size_or_default(), 3500);
    st.info.as_mut().unwrap().queued_players = 0;
    assert_eq!(st.get_population_info().unwrap(), "Players: 45/200");
}

#[test]
fn time_messages() {
    assert_eq!(night_countdown_message(42, 34), "42 minutes and 34 seconds until night");
    assert_eq!(day_countdown_message(0, 5), "0 minutes and 5 seconds until day");
    assert_eq!(time_of_day_message(14, 23, true, 42, 34), "14:23 (Day) - Night in 42m 34s");
    assert_eq!(time_of_day_message(3, 7, false, 1, 0), "03:07 (Night) - Day in 1m 0s");
}

#[test]
fn slash_commands() {
    assert_eq!(parse_slash_command("servers"), SlashCommand::Servers);
    assert_eq!(parse_slash_command("switch"), SlashCommand::Switch);
    assert_eq!(parse_slash_command("current"), SlashCommand::Current);
    assert_eq!(parse_slash_command("remove"), SlashCommand::Remove);
    assert_eq!(parse_slash_command("help"), SlashCommand::Help);
    assert_eq!(parse_slash_command("pair"), SlashCommand::Pair);
    assert_eq!(parse_slash_command("Help"), SlashCommand::Unknown);
    assert!(SlashCommand::Switch.command_for("").is_none());
    assert!(matches!(SlashCommand::Switch.command_for("alt"), Some(DiscordCommand::SwitchServer(s)) if s == "alt"));
    assert!(matches!(SlashCommand::Remove.command_for("alt"), Some(DiscordCommand::RemoveServer(s)) if s == "alt"));
    assert!(matches!(SlashCommand::Servers.command_for(""), Some(DiscordCommand::ListServers)));
    assert!(matches!(SlashCommand::Pair.command_for(""), Some(DiscordCommand::StartPairing)));
    assert!(SlashCommand::Unknown.command_for("x").is_none());
    assert_eq!(
        DiscordCommand::SwitchServer("a".to_string()).connection_action(),
        Some(ReconnectAction::SwitchServer)
    );
    assert_eq!(DiscordCommand::RemoveServer("a".to_string()).connection_action(), None);
    assert_eq!(DiscordCommand::Help.connection_action(), None);
}

#[test]
fn slash_replies() {
    let mut c = ServersConfig::new("main".to_string());
    assert_eq!(
        servers_reply(c.active_server(), &c.list_servers()),
        "No servers configured. Pair with a server using the pairing script."
    );
    c.insert_server("main".to_string(), server("Main"));
    let text = servers_reply(c.active_server(), &c.list_servers());
    assert_eq!(
        text,
        "**Configured Servers (1):**\n\n**main** [ACTIVE]\n  Main (1.2.3.4:28082)\n\n"
    );
    c.insert_server("alt".to_string(), server("Alt"));
    let text = servers_reply(c.active_server(), &c.list_servers());
    assert!(text.starts_with("**Configured Servers (2):**\n\n"));
    assert!(text.contains("**alt**\n  Alt (1.2.3.4:28082)\n\n"));
    assert_eq!(
        current_reply(&c),
        "**Currently Connected:**\n\n**main** (Main)\n1.2.3.4:28082\n\nPlayer: 7656"
    );
    let missing = ServersConfig::new("x".to_string());
    assert_eq!(
        current_reply(&missing),
        "Failed to get active server: Active server 'x' not found in configuration"
    );
    assert_eq!(servers_unreadable_reply(), "Failed to load server configuration.");
    assert_eq!(missing_server_id_reply(), "Please provide a server ID.");
    assert_eq!(load_failure_reply("boom"), "Failed to load configuration: boom");
    assert_eq!(
        switch_reply("alt", &Ok(())),
        "Switching to server: **alt**\n\nRustServant will reconnect..."
    );
    assert_eq!(switch_reply("alt", &Err("nope".to_string())), "Failed to switch: nope");
    assert_eq!(remove_reply("alt", &Ok(())), "Removed server: **alt**");
    assert_eq!(remove_reply("alt", &Err("no".to_string())), "Failed to remove: no");
    assert_eq!(unknown_slash_reply(), "Unknown command");
    assert!(help_reply().starts_with("**RustServant Commands**\n\n**In-Game (Team Chat):**\n• `!help` - Show available commands\n"));
    assert!(help_reply().ends_with("• `/remove <server>` - Remove server from config"));
    assert!(pairing_started_reply().contains("4. Click \"Pair with Server\"\n\nWaiting for pairing notification..."));
}

#[test]
fn pairing_success_scenario() {
    let mut m = PairingMonitor::new();
    assert_eq!(m.feed_line("starting"), PairingEvent::Ignored);
    assert_eq!(m.feed_line("PAIRING_LISTENING"), PairingEvent::Listening);
    assert_eq!(m.feed_line("SERVER_NAME:ignored"), PairingEvent::Ignored);
    assert_eq!(m.feed_line("PAIRING_SUCCESS"), PairingEvent::Succeeded);
    assert_eq!(m.feed_line("SERVER_NAME:Rustafied"), PairingEvent::Recorded);
    assert_eq!(m.feed_line("SERVER_ID:rf1"), PairingEvent::Recorded);
    assert_eq!(m.feed_line("SERVER_ADDRESS:1.2.3.4:28082"), PairingEvent::Recorded);
    assert_eq!(m.feed_line("IS_NEW:true"), PairingEvent::Recorded);
    assert_eq!(m.feed_line("PAIRING_TIMEOUT"), PairingEvent::Ignored);
    assert_eq!(m.phase, PairingPhase::Collecting);
    assert_eq!(m.status_text(), "Added new server");
    assert_eq!(
        m.outcome_message(),
        "✅ Added new server **Rustafied**\n\nServer ID: `rf1`\nAddress: `1.2.3.4:28082`\n\n_Use `/switch rf1` to connect to this server_"
    );
}

#[test]
fn pairing_failures() {
    let mut m = PairingMonitor::new();
    assert_eq!(m.outcome_message(), "❌ Pairing failed. No server detected.");
    assert_eq!(m.feed_line("PAIRING_TIMEOUT"), PairingEvent::TimedOut);
    assert_eq!(m.phase, PairingPhase::Finished);
    assert_eq!(m.timeout_message(), "⏱️ Pairing timed out after 60 seconds. Please try again.");
    assert_eq!(m.feed_line("PAIRING_SUCCESS"), PairingEvent::Ignored);
    let mut m = PairingMonitor::new();
    assert_eq!(m.feed_line("PAIRING_ERROR:no PAIRING_ERROR:fcm"), PairingEvent::Failed);
    assert_eq!(m.error, "no fcm");
    assert_eq!(m.error_message(), "❌ Pairing error: no fcm");
    let mut m = PairingMonitor::new();
    m.feed_line("PAIRING_SUCCESS");
    m.feed_line("IS_NEW:false");
    assert_eq!(m.status_text(), "Updated existing server");
    assert_eq!(m.outcome_message(), "❌ Pairing failed. No server detected.");
}

#[test]
fn reply_sources_route_commands() {
    assert_eq!(ChatCommand::Pop.reply_source(), ReplySource::Population);
    assert_eq!(ChatCommand::Info.reply_source(), ReplySource::ServerName);
    assert_eq!(ChatCommand::Time.reply_source(), ReplySource::TimeOfDay);
    assert_eq!(ChatCommand::Night.reply_source(), ReplySource::UntilNight);
    assert_eq!(ChatCommand::Day.reply_source(), ReplySource::UntilDay);
    assert_eq!(ChatCommand::MapDebug.reply_source(), ReplySource::MapDebug);
    assert_eq!(ChatCommand::TestMonuments.reply_source(), ReplySource::MonumentTest);
    assert_eq!(ChatCommand::Help.reply_source(), ReplySource::Fixed);
    assert_eq!(ChatCommand::Unknown.reply_source(), ReplySource::Fixed);
    assert_eq!(ChatCommand::ShowEvents.reply_source(), ReplySource::Markers(MarkerQuery::Events));
    assert_eq!(ChatCommand::GetMarkers.reply_source(), ReplySource::Markers(MarkerQuery::Summary));
    assert_eq!(ChatCommand::DebugMarkers.reply_source(), ReplySource::Markers(MarkerQuery::Debug));
    assert!(MarkerQuery::Events.replies_in_chat());
    assert!(!MarkerQuery::Summary.replies_in_chat());
    assert!(!MarkerQuery::Debug.replies_in_chat());
}

#[test]
fn request_numbers_rise_over_a_run() {
    let mut s = ChatSession::new();
    let mut issued = Vec::new();
    issued.push(s.next_seq());
    issued.push(s.begin_marker_query(MarkerQuery::Summary));
    assert_eq!(s.take_marker_reply(issued[1]), Some(MarkerQuery::Summary));
    issued.push(s.begin_marker_query(MarkerQuery::Events));
    assert_eq!(s.take_marker_reply(999), None);
    issued.push(s.next_seq());
    assert_eq!(issued, vec![101, 102, 103, 104]);
}

#[test]
fn slash_steps() {
    assert!(matches!(SlashCommand::Servers.begin(""), SlashStep::LoadConfig));
    assert!(matches!(SlashCommand::Current.begin(""), SlashStep::LoadConfig));
    assert!(matches!(SlashCommand::Switch.begin(""), SlashStep::Reply(t) if t == "Please provide a server ID."));
    assert!(matches!(SlashCommand::Switch.begin("alt"), SlashStep::LoadConfig));
    assert!(matches!(SlashCommand::Remove.begin("alt"), SlashStep::LoadConfig));
    assert!(matches!(SlashCommand::Help.begin(""), SlashStep::Reply(t) if t == help_reply()));
    assert!(matches!(SlashCommand::Pair.begin(""), SlashStep::StartPairing(t) if t == pairing_started_reply()));
    assert!(matches!(SlashCommand::Unknown.begin(""), SlashStep::Reply(t) if t == "Unknown command"));

    let mut c = ServersConfig::new("main".to_string());
    c.insert_server("main".to_string(), server("Main"));
    c.insert_server("alt".to_string(), server("Alt"));
    let fresh = || {
        let mut c = ServersConfig::new("main".to_string());
        c.insert_server("main".to_string(), server("Main"));
        c.insert_server("alt".to_string(), server("Alt"));
        c
    };
    match SlashCommand::Switch.after_load("alt", Ok(fresh())) {
        SlashStep::Save(saved, SavedChange::Switched) => assert_eq!(saved.active_server(), "alt"),
        _ => panic!("expected a save"),
    }
    assert!(matches!(SlashCommand::Switch.after_load("zz", Ok(fresh())), SlashStep::Reply(t) if t == "Failed to switch: Server 'zz' not found"));
    assert!(matches!(SlashCommand::Remove.after_load("main", Ok(fresh())), SlashStep::Reply(t) if t == "Failed to remove: Cannot remove the currently active server. Switch to another server first."));
    match SlashCommand::Remove.after_load("alt", Ok(fresh())) {
        SlashStep::Save(saved, SavedChange::Removed) => assert_eq!(saved.list_servers().len(), 1),
        _ => panic!("expected a save"),
    }
    assert!(matches!(SlashCommand::Current.after_load("", Err("io".to_string())), SlashStep::Reply(t) if t == "Failed to load configuration: io"));
    assert!(matches!(SlashCommand::Servers.after_load("", Err("io".to_string())), SlashStep::Reply(t) if t == "Failed to load server configuration."));
    assert!(matches!(SlashCommand::Current.after_load("", Ok(c)), SlashStep::Reply(t) if t.starts_with("**Currently Connected:**")));
    assert_eq!(saved_reply(SavedChange::Switched, "alt", &Ok(())), "Switching to server: **alt**\n\nRustServant will reconnect...");
    assert_eq!(saved_reply(SavedChange::Removed, "alt", &Err("disk".to_string())), "Failed to remove: disk");
}
