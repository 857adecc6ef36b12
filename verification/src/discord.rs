//! The Discord side of the bot: the slash commands, their replies, the
//! commands passed on to the game connection, and the watch over the
//! pairing helper's output.

use vstd::prelude::*;
use crate::config::{
    ConfigErrorView, ServerConfig, ServersConfig, ServersView, active_server_spec,
    config_error_text, distinct_ids, entries_map, remove_server_spec, switch_server_spec,
};
use crate::number::{decimal, push_decimal};
use crate::session::ReconnectAction;
use crate::text::{
    chars_equal, chars_of, remove_all, remove_all_exec, starts_with, starts_with_seq, str_equal,
};

verus! {

/// A request from Discord passed on to the game connection.
#[derive(Debug)]
pub enum DiscordCommand {
    ListServers,
    SwitchServer(String),
    GetActiveServer,
    RemoveServer(String),
    StartPairing,
    Help,
}

impl DiscordCommand {
    /// How the game connection ends because of this request: a switch ends
    /// it so that the bot connects to the new server; the rest leave it.
    pub fn connection_action(&self) -> (r: Option<ReconnectAction>)
        ensures
            r == (if self is SwitchServer {
                Some(ReconnectAction::SwitchServer)
            } else {
                None
            }),
    {
        match self {
            DiscordCommand::SwitchServer(_) => Some(ReconnectAction::SwitchServer),
            _ => None,
        }
    }
}

/// The slash commands the bot registers.
#[derive(Clone, Copy, Debug, PartialEq, Eq)]
pub enum SlashCommand {
    Servers,
    Switch,
    Current,
    Remove,
    Help,
    Pair,
    Unknown,
}

/// The slash command named `name`.
pub open spec fn slash_command_spec(name: Seq<char>) -> SlashCommand {
    if name == "servers"@ {
        SlashCommand::Servers
    } else if name == "switch"@ {
        SlashCommand::Switch
    } else if name == "current"@ {
        SlashCommand::Current
    } else if name == "remove"@ {
        SlashCommand::Remove
    } else if name == "help"@ {
        SlashCommand::Help
    } else if name == "pair"@ {
        SlashCommand::Pair
    } else {
        SlashCommand::Unknown
    }
}

/// The slash command named `name`.
pub fn parse_slash_command(name: &str) -> (r: SlashCommand)
    ensures
        r == slash_command_spec(name@),
{
    if str_equal(name, "servers") {
        SlashCommand::Servers
    } else if str_equal(name, "switch") {
        SlashCommand::Switch
    } else if str_equal(name, "current") {
        SlashCommand::Current
    } else if str_equal(name, "remove") {
        SlashCommand::Remove
    } else if str_equal(name, "help") {
        SlashCommand::Help
    } else if str_equal(name, "pair") {
        SlashCommand::Pair
    } else {
        SlashCommand::Unknown
    }
}

impl SlashCommand {
    /// The request passed on to the game connection for this command, given
    /// the server id the user typed (used by switch and remove, which pass
    /// nothing on when it is empty).
    pub fn command_for(&self, server_id: &str) -> (r: Option<DiscordCommand>)
        ensures
            match *self {
                SlashCommand::Servers => r matches Some(DiscordCommand::ListServers),
                SlashCommand::Current => r matches Some(DiscordCommand::GetActiveServer),
                SlashCommand::Help => r matches Some(DiscordCommand::Help),
                SlashCommand::Pair => r matches Some(DiscordCommand::StartPairing),
                SlashCommand::Switch => if server_id@.len() == 0 {
                    r is None
                } else {
                    r matches Some(DiscordCommand::SwitchServer(s)) && s@ == server_id@
                },
                SlashCommand::Remove => if server_id@.len() == 0 {
                    r is None
                } else {
                    r matches Some(DiscordCommand::RemoveServer(s)) && s@ == server_id@
                },
                SlashCommand::Unknown => r is None,
            },
    {
        let empty = chars_of(server_id).len() == 0;
        match self {
            SlashCommand::Servers => Some(DiscordCommand::ListServers),
            SlashCommand::Current => Some(DiscordCommand::GetActiveServer),
            SlashCommand::Help => Some(DiscordCommand::Help),
            SlashCommand::Pair => Some(DiscordCommand::StartPairing),
            SlashCommand::Switch => if empty {
                None
            } else {
                Some(DiscordCommand::SwitchServer(String::from_str(server_id)))
            },
            SlashCommand::Remove => if empty {
                None
            } else {
                Some(DiscordCommand::RemoveServer(String::from_str(server_id)))
            },
            SlashCommand::Unknown => None,
        }
    }
}

/// The line of the server list for the entry `e`.
pub open spec fn server_line(active: Seq<char>, e: (String, ServerConfig)) -> Seq<char> {
    "**"@ + e.0@ + "**"@ + (if e.0@ == active {
        " [ACTIVE]"@
    } else {
        Seq::empty()
    }) + "\n  "@ + e.1.name@ + " ("@ + e.1.server_ip@ + ":"@ + decimal(e.1.server_port as nat)
        + ")\n\n"@
}

/// The lines of the server list for the entries `list`.
pub open spec fn server_lines(active: Seq<char>, list: Seq<(String, ServerConfig)>) -> Seq<char>
    decreases list.len(),
{
    if list.len() == 0 {
        Seq::empty()
    } else {
        server_lines(active, list.drop_last()) + server_line(active, list.last())
    }
}

/// The reply to `/servers` listing `list`, the active one marked.
pub open spec fn servers_reply_spec(active: Seq<char>, list: Seq<(String, ServerConfig)>) -> Seq<
    char,
> {
    if list.len() == 0 {
        "No servers configured. Pair with a server using the pairing script."@
    } else {
        "**Configured Servers ("@ + decimal(list.len()) + "):**\n\n"@ + server_lines(active, list)
    }
}

/// The reply to `/servers`: each configured server in `list`, with the one
/// whose id is `active` marked.
pub fn servers_reply(active: &str, list: &Vec<(String, ServerConfig)>) -> (r: String)
    ensures
        r@ == servers_reply_spec(active@, list@),
{
    if list.len() == 0 {
        return String::from_str("No servers configured. Pair with a server using the pairing script.");
    }
    let active_chars = chars_of(active);
    let mut body = String::new();
    let mut i: usize = 0;
    while i < list.len()
        invariant
            i <= list@.len(),
            active_chars@ == active@,
            body@ == server_lines(active@, list@.take(i as int)),
        decreases list.len() - i,
    {
        assert(list@.take(i + 1).drop_last() =~= list@.take(i as int));
        let ghost before = body@;
        let id_chars = chars_of(list[i].0.as_str());
        body.append("**");
        body.append(list[i].0.as_str());
        body.append("**");
        if chars_equal(&id_chars, &active_chars) {
            body.append(" [ACTIVE]");
        }
        body.append("\n  ");
        body.append(list[i].1.name.as_str());
        body.append(" (");
        body.append(list[i].1.server_ip.as_str());
        body.append(":");
        push_decimal(&mut body, list[i].1.server_port as u64);
        body.append(")\n\n");
        assert(body@ =~= before + server_line(active@, list@[i as int]));
        i = i + 1;
    }
    assert(list@.take(i as int) =~= list@);
    let mut r = String::from_str("**Configured Servers (");
    push_decimal(&mut r, list.len() as u64);
    r.append("):**\n\n");
    r.append(body.as_str());
    r
}

/// The reply to `/servers` when the saved configuration could not be read.
pub fn servers_unreadable_reply() -> (r: String)
    ensures
        r@ == "Failed to load server configuration."@,
{
    String::from_str("Failed to load server configuration.")
}

/// The reply to `/switch` and `/remove` without a server id.
pub fn missing_server_id_reply() -> (r: String)
    ensures
        r@ == "Please provide a server ID."@,
{
    String::from_str("Please provide a server ID.")
}

/// The reply when the saved configuration could not be read, with the
/// reader's error text.
pub fn load_failure_reply(error: &str) -> (r: String)
    ensures
        r@ == "Failed to load configuration: "@ + error@,
{
    let mut r = String::from_str("Failed to load configuration: ");
    r.append(error);
    r
}

/// The reply to `/switch server_id`, given whether the switch (and saving
/// it) succeeded or the error text.
pub fn switch_reply(server_id: &str, outcome: &Result<(), String>) -> (r: String)
    ensures
        match outcome {
            Ok(_) => r@ == "Switching to server: **"@ + server_id@
                + "**\n\nRustServant will reconnect..."@,
            Err(e) => r@ == "Failed to switch: "@ + e@,
        },
{
    match outcome {
        Ok(_) => {
            let mut r = String::from_str("Switching to server: **");
            r.append(server_id);
            r.append("**\n\nRustServant will reconnect...");
            r
        },
        Err(e) => {
            let mut r = String::from_str("Failed to switch: ");
            r.append(e.as_str());
            r
        },
    }
}

/// The reply to `/remove server_id`, given whether the removal (and saving
/// it) succeeded or the error text.
pub fn remove_reply(server_id: &str, outcome: &Result<(), String>) -> (r: String)
    ensures
        match outcome {
            Ok(_) => r@ == "Removed server: **"@ + server_id@ + "**"@,
            Err(e) => r@ == "Failed to remove: "@ + e@,
        },
{
    match outcome {
        Ok(_) => {
            let mut r = String::from_str("Removed server: **");
            r.append(server_id);
            r.append("**");
            r
        },
        Err(e) => {
            let mut r = String::from_str("Failed to remove: ");
            r.append(e.as_str());
            r
        },
    }
}

/// The reply to `/current` for the saved servers `v`.
pub open spec fn current_reply_spec(v: ServersView) -> Seq<char> {
    match active_server_spec(v) {
        Ok(s) => "**Currently Connected:**\n\n**"@ + v.active_server + "** ("@ + s.name@ + ")\n"@
            + s.server_ip@ + ":"@ + decimal(s.server_port as nat) + "\n\nPlayer: "@ + s.player_id@,
        Err(e) => "Failed to get active server: "@ + config_error_text(e),
    }
}

/// The reply to `/current`: the active server's id, name, address and
/// player, or why it cannot be found.
pub fn current_reply(config: &ServersConfig) -> (r: String)
    ensures
        r@ == current_reply_spec(config@),
{
    match config.get_active_server() {
        Ok(s) => {
            let mut r = String::from_str("**Currently Connected:**\n\n**");
            r.append(config.active_server().as_str());
            r.append("** (");
            r.append(s.name.as_str());
            r.append(")\n");
            r.append(s.server_ip.as_str());
            r.append(":");
            push_decimal(&mut r, s.server_port as u64);
            r.append("\n\nPlayer: ");
            r.append(s.player_id.as_str());
            assert(r@ =~= current_reply_spec(config@));
            r
        },
        Err(e) => {
            let mut r = String::from_str("Failed to get active server: ");
            let m = e.message();
            r.append(m.as_str());
            r
        },
    }
}

/// The reply to an unknown slash command.
pub fn unknown_slash_reply() -> (r: String)
    ensures
        r@ == "Unknown command"@,
{
    String::from_str("Unknown command")
}

/// The change to the saved servers that a slash command made.
#[derive(Clone, Copy, Debug, PartialEq, Eq)]
pub enum SavedChange {
    Switched,
    Removed,
}

/// What handling a slash command does next.
pub enum SlashStep {
    /// Reply with this text; nothing more to do.
    Reply(String),
    /// Read the saved servers, then go on with `after_load`.
    LoadConfig,
    /// Save these changed servers, then reply with `saved_reply`.
    Save(ServersConfig, SavedChange),
    /// Start the pairing helper and reply with this text.
    StartPairing(String),
}

/// The reply of the slash commands that neither read nor change the saved
/// servers, and whether the command starts the pairing helper.
pub open spec fn plain_slash_reply(c: SlashCommand) -> Seq<char> {
    match c {
        SlashCommand::Help => help_text(),
        SlashCommand::Pair => pairing_started_text(),
        _ => "Unknown command"@,
    }
}

/// The text of `/help`.
pub open spec fn help_text() -> Seq<char> {
    "**RustServant Commands**\n\n\
    **In-Game (Team Chat):**\n\
    • `!help` - Show available commands\n\
    • `!time` - Current time and next day/night cycle\n\
    • `!night` - Time until nightfall\n\
    • `!day` - Time until daytime\n\
    • `!pop` - Player count and queue\n\
    • `!info` - Server name\n\
    • `!showevents` - List active events with locations\n\n\
    **Debug Commands (Terminal Output Only):**\n\
    • `!getmarkers` - Marker summary counts\n\
    • `!debugmarkers` - Detailed marker information\n\
    • `!mapdebug` - Map metadata and dimensions\n\
    • `!testmonuments` - Monument grid coordinate testing\n\n\
    **Discord Commands:**\n\
    • `/help` - Show this help message\n\
    • `/pair` - Pair with a new server (60s listener)\n\
    • `/servers` - List all configured servers\n\
    • `/current` - Show currently connected server\n\
    • `/switch <server>` - Switch to different server\n\
    • `/remove <server>` - Remove server from config"@
}

/// The first reply to `/pair`.
pub open spec fn pairing_started_text() -> Seq<char> {
    "**Pairing Mode Activated**\n\n\
    Listening for 60 seconds...\n\n\
    **Steps:**\n\
    1. Open Rust game\n\
    2. Press ESC\n\
    3. Go to Rust+ menu\n\
    4. Click \"Pair with Server\"\n\n\
    Waiting for pairing notification..."@
}

/// The reply once the saved servers have been written back (or failed to
/// be), after a change.
pub open spec fn saved_reply_spec(change: SavedChange, server_id: Seq<char>, saved: Result<(), Seq<char>>) -> Seq<char> {
    match (change, saved) {
        (SavedChange::Switched, Ok(_)) => "Switching to server: **"@ + server_id
            + "**\n\nRustServant will reconnect..."@,
        (SavedChange::Switched, Err(e)) => "Failed to switch: "@ + e,
        (SavedChange::Removed, Ok(_)) => "Removed server: **"@ + server_id + "**"@,
        (SavedChange::Removed, Err(e)) => "Failed to remove: "@ + e,
    }
}

/// The reply once the saved servers have been written back after `change`,
/// given whether writing them succeeded or its error text.
pub fn saved_reply(change: SavedChange, server_id: &str, saved: &Result<(), String>) -> (r: String)
    ensures
        r@ == saved_reply_spec(
            change,
            server_id@,
            match saved {
                Ok(_) => Ok(()),
                Err(e) => Err(e@),
            },
        ),
{
    match change {
        SavedChange::Switched => switch_reply(server_id, saved),
        SavedChange::Removed => remove_reply(server_id, saved),
    }
}

impl SlashCommand {
    /// The first step of handling this command, given the server id the
    /// user typed: read the saved servers (listing, the active server, and
    /// switching or removing one when an id was given), or reply at once.
    pub fn begin(&self, server_id: &str) -> (r: SlashStep)
        ensures
            match *self {
                SlashCommand::Servers | SlashCommand::Current => r is LoadConfig,
                SlashCommand::Switch | SlashCommand::Remove => if server_id@.len() == 0 {
                    r matches SlashStep::Reply(s) && s@ == "Please provide a server ID."@
                } else {
                    r is LoadConfig
                },
                SlashCommand::Pair => r matches SlashStep::StartPairing(s) && s@
                    == pairing_started_text(),
                _ => r matches SlashStep::Reply(s) && s@ == plain_slash_reply(*self),
            },
    {
        let empty = chars_of(server_id).len() == 0;
        match self {
            SlashCommand::Servers | SlashCommand::Current => SlashStep::LoadConfig,
            SlashCommand::Switch | SlashCommand::Remove => if empty {
                SlashStep::Reply(missing_server_id_reply())
            } else {
                SlashStep::LoadConfig
            },
            SlashCommand::Help => SlashStep::Reply(help_reply()),
            SlashCommand::Pair => SlashStep::StartPairing(pairing_started_reply()),
            SlashCommand::Unknown => SlashStep::Reply(unknown_slash_reply()),
        }
    }

    /// The step after the saved servers were read (`Ok`) or could not be
    /// (`Err` with the reader's error text). `/switch` and `/remove` make
    /// their change here and ask for it to be saved; the others reply.
    pub fn after_load(&self, server_id: &str, loaded: Result<ServersConfig, String>) -> (r: SlashStep)
        ensures
            match *self {
                SlashCommand::Servers => match loaded {
                    Ok(c) => r matches SlashStep::Reply(s) && exists|list: Seq<(String, ServerConfig)>|
                        distinct_ids(list) && entries_map(list) == c@.servers && s@
                            == servers_reply_spec(c@.active_server, list),
                    Err(_) => r matches SlashStep::Reply(s) && s@
                        == "Failed to load server configuration."@,
                },
                SlashCommand::Current => match loaded {
                    Ok(c) => r matches SlashStep::Reply(s) && s@ == current_reply_spec(c@),
                    Err(e) => r matches SlashStep::Reply(s) && s@ == "Failed to load configuration: "@
                        + e@,
                },
                SlashCommand::Switch => if server_id@.len() == 0 {
                    r matches SlashStep::Reply(s) && s@ == "Please provide a server ID."@
                } else {
                    match loaded {
                        Ok(c) => match switch_server_spec(c@, server_id@) {
                            Ok(v) => r matches SlashStep::Save(c2, change) && c2@ == v && change
                                == SavedChange::Switched,
                            Err(e) => r matches SlashStep::Reply(s) && s@ == "Failed to switch: "@
                                + config_error_text(e),
                        },
                        Err(e) => r matches SlashStep::Reply(s) && s@
                            == "Failed to load configuration: "@ + e@,
                    }
                },
                SlashCommand::Remove => if server_id@.len() == 0 {
                    r matches SlashStep::Reply(s) && s@ == "Please provide a server ID."@
                } else {
                    match loaded {
                        Ok(c) => match remove_server_spec(c@, server_id@) {
                            Ok(v) => r matches SlashStep::Save(c2, change) && c2@ == v && change
                                == SavedChange::Removed,
                            Err(e) => r matches SlashStep::Reply(s) && s@ == "Failed to remove: "@
                                + config_error_text(e),
                        },
                        Err(e) => r matches SlashStep::Reply(s) && s@
                            == "Failed to load configuration: "@ + e@,
                    }
                },
                SlashCommand::Pair => r matches SlashStep::StartPairing(s) && s@
                    == pairing_started_text(),
                _ => r matches SlashStep::Reply(s) && s@ == plain_slash_reply(*self),
            },
    {
        let empty = chars_of(server_id).len() == 0;
        match self {
            SlashCommand::Servers => match loaded {
                Ok(c) => {
                    let list = c.list_servers();
                    SlashStep::Reply(servers_reply(c.active_server().as_str(), &list))
                },
                Err(_) => SlashStep::Reply(servers_unreadable_reply()),
            },
            SlashCommand::Current => match loaded {
                Ok(c) => SlashStep::Reply(current_reply(&c)),
                Err(e) => SlashStep::Reply(load_failure_reply(e.as_str())),
            },
            SlashCommand::Switch => if empty {
                SlashStep::Reply(missing_server_id_reply())
            } else {
                match loaded {
                    Ok(mut c) => match c.switch_server(server_id) {
                        Ok(_) => SlashStep::Save(c, SavedChange::Switched),
                        Err(e) => {
                            let m = e.message();
                            SlashStep::Reply(switch_reply(server_id, &Err(m)))
                        },
                    },
                    Err(e) => SlashStep::Reply(load_failure_reply(e.as_str())),
                }
            },
            SlashCommand::Remove => if empty {
                SlashStep::Reply(missing_server_id_reply())
            } else {
                match loaded {
                    Ok(mut c) => match c.remove_server(server_id) {
                        Ok(_) => SlashStep::Save(c, SavedChange::Removed),
                        Err(e) => {
                            let m = e.message();
                            SlashStep::Reply(remove_reply(server_id, &Err(m)))
                        },
                    },
                    Err(e) => SlashStep::Reply(load_failure_reply(e.as_str())),
                }
            },
            SlashCommand::Help => SlashStep::Reply(help_reply()),
            SlashCommand::Pair => SlashStep::StartPairing(pairing_started_reply()),
            SlashCommand::Unknown => SlashStep::Reply(unknown_slash_reply()),
        }
    }
}

/// The reply to `/help`.
pub fn help_reply() -> (r: String)
    ensures
        r@ == help_text(),
        r@ == "**RustServant Commands**\n\n\
        **In-Game (Team Chat):**\n\
        • `!help` - Show available commands\n\
        • `!time` - Current time and next day/night cycle\n\
        • `!night` - Time until nightfall\n\
        • `!day` - Time until daytime\n\
        • `!pop` - Player count and queue\n\
        • `!info` - Server name\n\
        • `!showevents` - List active events with locations\n\n\
        **Debug Commands (Terminal Output Only):**\n\
        • `!getmarkers` - Marker summary counts\n\
        • `!debugmarkers` - Detailed marker information\n\
        • `!mapdebug` - Map metadata and dimensions\n\
        • `!testmonuments` - Monument grid coordinate testing\n\n\
        **Discord Commands:**\n\
        • `/help` - Show this help message\n\
        • `/pair` - Pair with a new server (60s listener)\n\
        • `/servers` - List all configured servers\n\
        • `/current` - Show currently connected server\n\
        • `/switch <server>` - Switch to different server\n\
        • `/remove <server>` - Remove server from config"@,
{
    String::from_str(
        "**RustServant Commands**\n\n\
        **In-Game (Team Chat):**\n\
        • `!help` - Show available commands\n\
        • `!time` - Current time and next day/night cycle\n\
        • `!night` - Time until nightfall\n\
        • `!day` - Time until daytime\n\
        • `!pop` - Player count and queue\n\
        • `!info` - Server name\n\
        • `!showevents` - List active events with locations\n\n\
        **Debug Commands (Terminal Output Only):**\n\
        • `!getmarkers` - Marker summary counts\n\
        • `!debugmarkers` - Detailed marker information\n\
        • `!mapdebug` - Map metadata and dimensions\n\
        • `!testmonuments` - Monument grid coordinate testing\n\n\
        **Discord Commands:**\n\
        • `/help` - Show this help message\n\
        • `/pair` - Pair with a new server (60s listener)\n\
        • `/servers` - List all configured servers\n\
        • `/current` - Show currently connected server\n\
        • `/switch <server>` - Switch to different server\n\
        • `/remove <server>` - Remove server from config",
    )
}

/// The first reply to `/pair`, while the pairing helper listens.
pub fn pairing_started_reply() -> (r: String)
    ensures
        r@ == pairing_started_text(),
        r@ == "**Pairing Mode Activated**\n\n\
        Listening for 60 seconds...\n\n\
        **Steps:**\n\
        1. Open Rust game\n\
        2. Press ESC\n\
        3. Go to Rust+ menu\n\
        4. Click \"Pair with Server\"\n\n\
        Waiting for pairing notification..."@,
{
    String::from_str(
        "**Pairing Mode Activated**\n\n\
        Listening for 60 seconds...\n\n\
        **Steps:**\n\
        1. Open Rust game\n\
        2. Press ESC\n\
        3. Go to Rust+ menu\n\
        4. Click \"Pair with Server\"\n\n\
        Waiting for pairing notification...",
    )
}

/// Where the pairing helper's output has got to.
#[derive(Clone, Copy, Debug, PartialEq, Eq)]
pub enum PairingPhase {
    /// Waiting for the helper to report success, a timeout or an error.
    Waiting,
    /// Success reported; reading the paired server's details.
    Collecting,
    /// Timed out or failed; nothing more is read.
    Finished,
}

/// What one line of the helper's output meant.
#[derive(Clone, Copy, Debug, PartialEq, Eq)]
pub enum PairingEvent {
    /// The helper is listening for a pairing notification.
    Listening,
    /// A server was paired; its details follow.
    Succeeded,
    /// No pairing came in time.
    TimedOut,
    /// The helper reported an error (kept in `error`).
    Failed,
    /// A detail of the paired server was recorded.
    Recorded,
    /// The line meant nothing here.
    Ignored,
}

/// What has been read from the pairing helper, as plain values.
pub struct PairingView {
    pub phase: PairingPhase,
    pub server_name: Seq<char>,
    pub server_id: Seq<char>,
    pub server_address: Seq<char>,
    pub is_new: bool,
    pub error: Seq<char>,
}

/// What has been read from the pairing helper's output so far.
#[derive(Debug)]
pub struct PairingMonitor {
    pub phase: PairingPhase,
    pub server_name: String,
    pub server_id: String,
    pub server_address: String,
    pub is_new: bool,
    pub error: String,
}

impl View for PairingMonitor {
    type V = PairingView;

    open spec fn view(&self) -> PairingView {
        PairingView {
            phase: self.phase,
            server_name: self.server_name@,
            server_id: self.server_id@,
            server_address: self.server_address@,
            is_new: self.is_new,
            error: self.error@,
        }
    }
}

/// Nothing read yet.
pub open spec fn pairing_fresh() -> PairingView {
    PairingView {
        phase: PairingPhase::Waiting,
        server_name: Seq::empty(),
        server_id: Seq::empty(),
        server_address: Seq::empty(),
        is_new: false,
        error: Seq::empty(),
    }
}

/// What has been read after the line `line`, when `m` had been read before,
/// and what the line meant.
pub open spec fn pairing_step(m: PairingView, line: Seq<char>) -> (PairingView, PairingEvent) {
    match m.phase {
        PairingPhase::Waiting => if line == "PAIRING_LISTENING"@ {
            (m, PairingEvent::Listening)
        } else if line == "PAIRING_SUCCESS"@ {
            (PairingView { phase: PairingPhase::Collecting, ..m }, PairingEvent::Succeeded)
        } else if line == "PAIRING_TIMEOUT"@ {
            (PairingView { phase: PairingPhase::Finished, ..m }, PairingEvent::TimedOut)
        } else if starts_with_seq(line, "PAIRING_ERROR:"@) {
            (
                PairingView {
                    phase: PairingPhase::Finished,
                    error: remove_all(line, "PAIRING_ERROR:"@),
                    ..m
                },
                PairingEvent::Failed,
            )
        } else {
            (m, PairingEvent::Ignored)
        },
        PairingPhase::Collecting => if starts_with_seq(line, "SERVER_NAME:"@) {
            (
                PairingView { server_name: remove_all(line, "SERVER_NAME:"@), ..m },
                PairingEvent::Recorded,
            )
        } else if starts_with_seq(line, "SERVER_ID:"@) {
            (
                PairingView { server_id: remove_all(line, "SERVER_ID:"@), ..m },
                PairingEvent::Recorded,
            )
        } else if starts_with_seq(line, "SERVER_ADDRESS:"@) {
            (
                PairingView { server_address: remove_all(line, "SERVER_ADDRESS:"@), ..m },
                PairingEvent::Recorded,
            )
        } else if starts_with_seq(line, "IS_NEW:"@) {
            (
                PairingView { is_new: remove_all(line, "IS_NEW:"@) == "true"@, ..m },
                PairingEvent::Recorded,
            )
        } else {
            (m, PairingEvent::Ignored)
        },
        PairingPhase::Finished => (m, PairingEvent::Ignored),
    }
}

/// The words for a new or an updated server.
pub open spec fn pairing_status_spec(is_new: bool) -> Seq<char> {
    if is_new {
        "Added new server"@
    } else {
        "Updated existing server"@
    }
}

/// The message sent when the helper's output has ended.
pub open spec fn pairing_outcome_spec(m: PairingView) -> Seq<char> {
    if m.server_name.len() > 0 {
        "✅ "@ + pairing_status_spec(m.is_new) + " **"@ + m.server_name + "**\n\nServer ID: `"@
            + m.server_id + "`\nAddress: `"@ + m.server_address + "`\n\n_Use `/switch "@
            + m.server_id + "` to connect to this server_"@
    } else {
        "❌ Pairing failed. No server detected."@
    }
}

impl PairingMonitor {
    /// Nothing read yet.
    pub fn new() -> (r: PairingMonitor)
        ensures
            r@ == pairing_fresh(),
    {
        PairingMonitor {
            phase: PairingPhase::Waiting,
            server_name: String::new(),
            server_id: String::new(),
            server_address: String::new(),
            is_new: false,
            error: String::new(),
        }
    }

    /// Reads one line of the helper's output.
    pub fn feed_line(&mut self, line: &str) -> (r: PairingEvent)
        ensures
            (final(self)@, r) == pairing_step(old(self)@, line@),
    {
        let chars = chars_of(line);
        match self.phase {
            PairingPhase::Waiting => {
                if str_equal(line, "PAIRING_LISTENING") {
                    PairingEvent::Listening
                } else if str_equal(line, "PAIRING_SUCCESS") {
                    self.phase = PairingPhase::Collecting;
                    PairingEvent::Succeeded
                } else if str_equal(line, "PAIRING_TIMEOUT") {
                    self.phase = PairingPhase::Finished;
                    PairingEvent::TimedOut
                } else {
                    let prefix = chars_of("PAIRING_ERROR:");
                    if starts_with(&chars, &prefix) {
                        self.phase = PairingPhase::Finished;
                        self.error = remove_all_exec(&chars, &prefix);
                        PairingEvent::Failed
                    } else {
                        PairingEvent::Ignored
                    }
                }
            },
            PairingPhase::Collecting => {
                let name_prefix = chars_of("SERVER_NAME:");
                let id_prefix = chars_of("SERVER_ID:");
                let address_prefix = chars_of("SERVER_ADDRESS:");
                let new_prefix = chars_of("IS_NEW:");
                if starts_with(&chars, &name_prefix) {
                    self.server_name = remove_all_exec(&chars, &name_prefix);
                    PairingEvent::Recorded
                } else if starts_with(&chars, &id_prefix) {
                    self.server_id = remove_all_exec(&chars, &id_prefix);
                    PairingEvent::Recorded
                } else if starts_with(&chars, &address_prefix) {
                    self.server_address = remove_all_exec(&chars, &address_prefix);
                    PairingEvent::Recorded
                } else if starts_with(&chars, &new_prefix) {
                    let flag = remove_all_exec(&chars, &new_prefix);
                    self.is_new = str_equal(flag.as_str(), "true");
                    PairingEvent::Recorded
                } else {
                    PairingEvent::Ignored
                }
            },
            PairingPhase::Finished => PairingEvent::Ignored,
        }
    }

    /// "Added new server" or "Updated existing server".
    pub fn status_text(&self) -> (r: String)
        ensures
            r@ == pairing_status_spec(self.is_new),
    {
        if self.is_new {
            String::from_str("Added new server")
        } else {
            String::from_str("Updated existing server")
        }
    }

    /// The message sent once the helper's output has ended: the paired
    /// server's details, or that no server was detected.
    pub fn outcome_message(&self) -> (r: String)
        ensures
            r@ == pairing_outcome_spec(self@),
    {
        let name = chars_of(self.server_name.as_str());
        if name.len() > 0 {
            let mut r = String::from_str("✅ ");
            let status = self.status_text();
            r.append(status.as_str());
            r.append(" **");
            r.append(self.server_name.as_str());
            r.append("**\n\nServer ID: `");
            r.append(self.server_id.as_str());
            r.append("`\nAddress: `");
            r.append(self.server_address.as_str());
            r.append("`\n\n_Use `/switch ");
            r.append(self.server_id.as_str());
            r.append("` to connect to this server_");
            assert(r@ =~= pairing_outcome_spec(self@));
            r
        } else {
            String::from_str("❌ Pairing failed. No server detected.")
        }
    }

    /// The message sent when the helper reports no pairing in time.
    pub fn timeout_message(&self) -> (r: String)
        ensures
            r@ == "⏱️ Pairing timed out after 60 seconds. Please try again."@,
    {
        String::from_str("⏱️ Pairing timed out after 60 seconds. Please try again.")
    }

    /// The message sent when the helper reports an error.
    pub fn error_message(&self) -> (r: String)
        ensures
            r@ == "❌ Pairing error: "@ + self.error@,
    {
        let mut r = String::from_str("❌ Pairing error: ");
        r.append(self.error.as_str());
        r
    }
}

/// What has been read after the lines `lines`, from nothing.
pub open spec fn pairing_run(lines: Seq<Seq<char>>) -> PairingView
    decreases lines.len(),
{
    if lines.len() == 0 {
        pairing_fresh()
    } else {
        pairing_step(pairing_run(lines.drop_last()), lines.last()).0
    }
}

/// A server's details are only recorded after the helper reported success:
/// if a name was read, some earlier line was `PAIRING_SUCCESS`, and until
/// then the outcome is that no server was detected.
pub proof fn law_details_follow_success(lines: Seq<Seq<char>>)
    ensures
        pairing_run(lines).phase != PairingPhase::Collecting ==> pairing_run(lines).server_name
            == Seq::<char>::empty(),
        pairing_run(lines).server_name.len() > 0 ==> exists|i: int|
            0 <= i < lines.len() && #[trigger] lines[i] == "PAIRING_SUCCESS"@,
        pairing_run(lines).phase == PairingPhase::Collecting ==> exists|i: int|
            0 <= i < lines.len() && #[trigger] lines[i] == "PAIRING_SUCCESS"@,
    decreases lines.len(),
{
    if lines.len() > 0 {
        let prev = lines.drop_last();
        law_details_follow_success(prev);
        let m = pairing_run(prev);
        if m.phase == PairingPhase::Collecting {
            let i = choose|i: int| 0 <= i < prev.len() && #[trigger] prev[i] == "PAIRING_SUCCESS"@;
            assert(lines[i] == prev[i]);
        } else if m.phase == PairingPhase::Waiting && lines.last() == "PAIRING_SUCCESS"@ {
            assert(lines[lines.len() - 1] == "PAIRING_SUCCESS"@);
        }
    }
}

/// Once the helper has reported success, later lines never leave the
/// collecting phase; once it timed out or failed, nothing more is read.
pub proof fn law_pairing_phases_final(m: PairingView, line: Seq<char>)
    ensures
        m.phase == PairingPhase::Collecting ==> pairing_step(m, line).0.phase
            == PairingPhase::Collecting,
        m.phase == PairingPhase::Finished ==> pairing_step(m, line).0 == m,
{
}

} // verus!
