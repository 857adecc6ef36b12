//! Saved server configurations: which servers the bot knows, which one is
//! active, and the checks made on them before connecting.

use vstd::prelude::*;
use crate::number::{
    IntErrorKind, int_error_text, parse_i32, parse_i32_spec, parse_u64, parse_u64_spec,
};
use crate::text::{chars_equal, chars_of, str_equal};

verus! {

/// Connection details of one paired server.
#[derive(Debug)]
pub struct ServerConfig {
    pub name: String,
    pub server_ip: String,
    pub server_port: u16,
    pub player_id: String,
    pub player_token: String,
}

/// An error about the configuration, described by plain values.
pub enum ConfigErrorView {
    ActiveServerMissing(Seq<char>),
    ServerNotFound(Seq<char>),
    ActiveServerRemoval,
    InvalidPlayerToken(IntErrorKind),
    InvalidPlayerId(IntErrorKind),
    PlaceholderBotToken,
}

/// Why a configuration request was refused.
#[derive(Debug)]
pub enum ConfigError {
    /// The active server id names no configured server.
    ActiveServerMissing(String),
    /// No server is configured under this id.
    ServerNotFound(String),
    /// The server to remove is the active one.
    ActiveServerRemoval,
    /// The stored player token is not a decimal `i32`.
    InvalidPlayerToken(IntErrorKind),
    /// The stored player id is not a decimal `u64`.
    InvalidPlayerId(IntErrorKind),
    /// The Discord bot token is still the template's placeholder.
    PlaceholderBotToken,
}

impl View for ConfigError {
    type V = ConfigErrorView;

    open spec fn view(&self) -> ConfigErrorView {
        match self {
            ConfigError::ActiveServerMissing(s) => ConfigErrorView::ActiveServerMissing(s@),
            ConfigError::ServerNotFound(s) => ConfigErrorView::ServerNotFound(s@),
            ConfigError::ActiveServerRemoval => ConfigErrorView::ActiveServerRemoval,
            ConfigError::InvalidPlayerToken(k) => ConfigErrorView::InvalidPlayerToken(*k),
            ConfigError::InvalidPlayerId(k) => ConfigErrorView::InvalidPlayerId(*k),
            ConfigError::PlaceholderBotToken => ConfigErrorView::PlaceholderBotToken,
        }
    }
}

/// The text shown for a configuration error.
pub open spec fn config_error_text(e: ConfigErrorView) -> Seq<char> {
    match e {
        ConfigErrorView::ActiveServerMissing(id) => "Active server '"@ + id
            + "' not found in configuration"@,
        ConfigErrorView::ServerNotFound(id) => "Server '"@ + id + "' not found"@,
        ConfigErrorView::ActiveServerRemoval =>
            "Cannot remove the currently active server. Switch to another server first."@,
        ConfigErrorView::InvalidPlayerToken(k) => "Failed to parse player_token: "@
            + int_error_text(k),
        ConfigErrorView::InvalidPlayerId(k) => "Failed to parse player_id: "@ + int_error_text(k),
        ConfigErrorView::PlaceholderBotToken =>
            "Please set your Discord bot token in discord_config.json"@,
    }
}

/// A result whose error is a `ConfigError` agrees with one stated over
/// `ConfigErrorView`.
pub open spec fn agrees<T>(r: Result<T, ConfigError>, s: Result<T, ConfigErrorView>) -> bool {
    match r {
        Ok(a) => s == Ok::<T, ConfigErrorView>(a),
        Err(e) => s == Err::<T, ConfigErrorView>(e@),
    }
}

impl ConfigError {
    /// The text shown for this error.
    pub fn message(&self) -> (r: String)
        ensures
            r@ == config_error_text(self@),
    {
        match self {
            ConfigError::ActiveServerMissing(id) => {
                let mut s = String::from_str("Active server '");
                s.append(id.as_str());
                s.append("' not found in configuration");
                s
            },
            ConfigError::ServerNotFound(id) => {
                let mut s = String::from_str("Server '");
                s.append(id.as_str());
                s.append("' not found");
                s
            },
            ConfigError::ActiveServerRemoval => String::from_str(
                "Cannot remove the currently active server. Switch to another server first.",
            ),
            ConfigError::InvalidPlayerToken(k) => {
                let mut s = String::from_str("Failed to parse player_token: ");
                let m = k.message();
                s.append(m.as_str());
                s
            },
            ConfigError::InvalidPlayerId(k) => {
                let mut s = String::from_str("Failed to parse player_id: ");
                let m = k.message();
                s.append(m.as_str());
                s
            },
            ConfigError::PlaceholderBotToken => String::from_str(
                "Please set your Discord bot token in discord_config.json",
            ),
        }
    }
}

/// The player token read as an `i32`, or the error std's parser reports.
pub open spec fn player_token_spec(c: ServerConfig) -> Result<i32, ConfigErrorView> {
    match parse_i32_spec(c.player_token@) {
        Ok(v) => Ok(v),
        Err(k) => Err(ConfigErrorView::InvalidPlayerToken(k)),
    }
}

/// The player id read as a `u64`, or the error std's parser reports.
pub open spec fn player_id_spec(c: ServerConfig) -> Result<u64, ConfigErrorView> {
    match parse_u64_spec(c.player_id@) {
        Ok(v) => Ok(v),
        Err(k) => Err(ConfigErrorView::InvalidPlayerId(k)),
    }
}

impl ServerConfig {
    /// A copy of this configuration.
    pub fn duplicate(&self) -> (r: ServerConfig)
        ensures
            r == *self,
    {
        ServerConfig {
            name: self.name.clone(),
            server_ip: self.server_ip.clone(),
            server_port: self.server_port,
            player_id: self.player_id.clone(),
            player_token: self.player_token.clone(),
        }
    }

    /// The player token as the `i32` the game server expects.
    pub fn get_player_token_i32(&self) -> (r: Result<i32, ConfigError>)
        ensures
            agrees(r, player_token_spec(*self)),
    {
        match parse_i32(self.player_token.as_str()) {
            Ok(v) => Ok(v),
            Err(k) => Err(ConfigError::InvalidPlayerToken(k)),
        }
    }

    /// The player id as the `u64` the game server expects.
    pub fn get_player_id_u64(&self) -> (r: Result<u64, ConfigError>)
        ensures
            agrees(r, player_id_spec(*self)),
    {
        match parse_u64(self.player_id.as_str()) {
            Ok(v) => Ok(v),
            Err(k) => Err(ConfigError::InvalidPlayerId(k)),
        }
    }
}

/// The saved servers, as plain values: the active id and the servers by id.
pub struct ServersView {
    pub active_server: Seq<char>,
    pub servers: Map<Seq<char>, ServerConfig>,
}

/// No two entries share an id.
pub open spec fn distinct_ids(s: Seq<(String, ServerConfig)>) -> bool {
    forall|i: int, j: int| 0 <= i < s.len() && 0 <= j < s.len() && i != j ==> s[i].0@ != s[j].0@
}

/// An index of `s` whose entry has the id `k`.
pub open spec fn has_id_at(s: Seq<(String, ServerConfig)>, k: Seq<char>, i: int) -> bool {
    0 <= i < s.len() && s[i].0@ == k
}

/// The entries `s` as a map from id to configuration.
pub open spec fn entries_map(s: Seq<(String, ServerConfig)>) -> Map<Seq<char>, ServerConfig> {
    Map::new(
        |k: Seq<char>| exists|i: int| has_id_at(s, k, i),
        |k: Seq<char>| s[choose|i: int| has_id_at(s, k, i)].1,
    )
}

proof fn lemma_entries_lookup(s: Seq<(String, ServerConfig)>, i: int)
    requires
        distinct_ids(s),
        0 <= i < s.len(),
    ensures
        entries_map(s).contains_key(s[i].0@),
        entries_map(s)[s[i].0@] == s[i].1,
{
    assert(has_id_at(s, s[i].0@, i));
    let j = choose|j: int| has_id_at(s, s[i].0@, j);
    assert(j == i);
}

/// The servers the bot knows, with the id of the one it connects to.
pub struct ServersConfig {
    active_server: String,
    servers: Vec<(String, ServerConfig)>,
}

impl View for ServersConfig {
    type V = ServersView;

    closed spec fn view(&self) -> ServersView {
        ServersView { active_server: self.active_server@, servers: entries_map(self.servers@) }
    }
}

/// What `get_active_server` gives for the saved servers `v`.
pub open spec fn active_server_spec(v: ServersView) -> Result<ServerConfig, ConfigErrorView> {
    if v.servers.contains_key(v.active_server) {
        Ok(v.servers[v.active_server])
    } else {
        Err(ConfigErrorView::ActiveServerMissing(v.active_server))
    }
}

/// The saved servers after `switch_server(id)` on `v`, or its error.
pub open spec fn switch_server_spec(v: ServersView, id: Seq<char>) -> Result<ServersView, ConfigErrorView> {
    if v.servers.contains_key(id) {
        Ok(ServersView { active_server: id, servers: v.servers })
    } else {
        Err(ConfigErrorView::ServerNotFound(id))
    }
}

/// The saved servers after `remove_server(id)` on `v`, or its error.
pub open spec fn remove_server_spec(v: ServersView, id: Seq<char>) -> Result<ServersView, ConfigErrorView> {
    if id == v.active_server {
        Err(ConfigErrorView::ActiveServerRemoval)
    } else if !v.servers.contains_key(id) {
        Err(ConfigErrorView::ServerNotFound(id))
    } else {
        Ok(ServersView { active_server: v.active_server, servers: v.servers.remove(id) })
    }
}

impl ServersConfig {
    #[verifier::type_invariant]
    spec fn ids_distinct(&self) -> bool {
        distinct_ids(self.servers@)
    }

    /// No servers yet, with `active_server` as the id to connect to.
    pub fn new(active_server: String) -> (r: ServersConfig)
        ensures
            r@.active_server == active_server@,
            r@.servers == Map::<Seq<char>, ServerConfig>::empty(),
    {
        let r = ServersConfig { active_server, servers: Vec::new() };
        assert(r@.servers =~= Map::<Seq<char>, ServerConfig>::empty());
        r
    }

    /// The id of the server to connect to.
    pub fn active_server(&self) -> (r: &String)
        ensures
            r@ == self@.active_server,
    {
        &self.active_server
    }

    /// The position of the entry with the id `id`, if any.
    fn find(&self, id: &Vec<char>) -> (r: Option<usize>)
        ensures
            match r {
                Some(i) => i < self.servers@.len() && self.servers@[i as int].0@ == id@,
                None => !self@.servers.contains_key(id@),
            },
    {
        let mut i: usize = 0;
        while i < self.servers.len()
            invariant
                i <= self.servers@.len(),
                forall|j: int| 0 <= j < i ==> self.servers@[j].0@ != id@,
            decreases self.servers.len() - i,
        {
            let key = chars_of(self.servers[i].0.as_str());
            if chars_equal(&key, id) {
                return Some(i);
            }
            i = i + 1;
        }
        None
    }

    /// Adds `config` under `id`, replacing any configuration stored there.
    pub fn insert_server(&mut self, id: String, config: ServerConfig)
        ensures
            final(self)@.active_server == old(self)@.active_server,
            final(self)@.servers == old(self)@.servers.insert(id@, config),
    {
        proof {
            use_type_invariant(&*self);
        }
        let key = chars_of(id.as_str());
        let ghost old_entries = self.servers@;
        match self.find(&key) {
            Some(i) => {
                let mut entries: Vec<(String, ServerConfig)> = Vec::new();
                std::mem::swap(&mut entries, &mut self.servers);
                entries.set(i, (id, config));
                proof {
                    assert(entries@ == old_entries.update(i as int, (id, config)));
                    assert forall|k: Seq<char>| #[trigger]
                        entries_map(entries@).contains_key(k) == old(self)@.servers.insert(
                            key@,
                            config,
                        ).contains_key(k) by {
                        if exists|j: int| has_id_at(old_entries, k, j) {
                            let j = choose|j: int| has_id_at(old_entries, k, j);
                            assert(has_id_at(entries@, k, j));
                        }
                        if k == key@ {
                            assert(has_id_at(entries@, k, i as int));
                        }
                        if exists|j: int| has_id_at(entries@, k, j) {
                            let j = choose|j: int| has_id_at(entries@, k, j);
                            if j != i {
                                assert(has_id_at(old_entries, k, j));
                            }
                        }
                    }
                    assert forall|k: Seq<char>|
                        #[trigger] entries_map(entries@).contains_key(k) implies entries_map(
                        entries@,
                    )[k] == old(self)@.servers.insert(key@, config)[k] by {
                        let j = choose|j: int| has_id_at(entries@, k, j);
                        lemma_entries_lookup(entries@, j);
                        if j != i {
                            lemma_entries_lookup(old_entries, j);
                        }
                    }
                    assert(entries_map(entries@) =~= old(self)@.servers.insert(key@, config));
                }
                self.servers = entries;
            },
            None => {
                let mut entries: Vec<(String, ServerConfig)> = Vec::new();
                std::mem::swap(&mut entries, &mut self.servers);
                entries.push((id, config));
                proof {
                    let n = old_entries.len() as int;
                    assert forall|k: Seq<char>| #[trigger]
                        entries_map(entries@).contains_key(k) == old(self)@.servers.insert(
                            key@,
                            config,
                        ).contains_key(k) by {
                        if exists|j: int| has_id_at(old_entries, k, j) {
                            let j = choose|j: int| has_id_at(old_entries, k, j);
                            assert(has_id_at(entries@, k, j));
                        }
                        if k == key@ {
                            assert(has_id_at(entries@, k, n));
                        }
                        if exists|j: int| has_id_at(entries@, k, j) {
                            let j = choose|j: int| has_id_at(entries@, k, j);
                            if j != n {
                                assert(has_id_at(old_entries, k, j));
                            }
                        }
                    }
                    assert forall|j: int| 0 <= j < n implies old_entries[j].0@ != key@ by {
                        if old_entries[j].0@ == key@ {
                            assert(has_id_at(old_entries, key@, j));
                        }
                    }
                    assert(entries@ == old_entries.push((id, config)));
                    assert(distinct_ids(entries@));
                    assert forall|k: Seq<char>|
                        #[trigger] entries_map(entries@).contains_key(k) implies entries_map(
                        entries@,
                    )[k] == old(self)@.servers.insert(key@, config)[k] by {
                        let j = choose|j: int| has_id_at(entries@, k, j);
                        lemma_entries_lookup(entries@, j);
                        if j != n {
                            lemma_entries_lookup(old_entries, j);
                        }
                    }
                    assert(entries_map(entries@) =~= old(self)@.servers.insert(key@, config));
                }
                self.servers = entries;
            },
        }
    }

    /// The configuration of the active server.
    pub fn get_active_server(&self) -> (r: Result<ServerConfig, ConfigError>)
        ensures
            agrees(r, active_server_spec(self@)),
    {
        proof {
            use_type_invariant(self);
        }
        let key = chars_of(self.active_server.as_str());
        match self.find(&key) {
            Some(i) => {
                proof {
                    lemma_entries_lookup(self.servers@, i as int);
                }
                Ok(self.servers[i].1.duplicate())
            },
            None => Err(ConfigError::ActiveServerMissing(self.active_server.clone())),
        }
    }

    /// Makes `server_id` the active server, when it is configured.
    pub fn switch_server(&mut self, server_id: &str) -> (r: Result<(), ConfigError>)
        ensures
            match r {
                Ok(_) => switch_server_spec(old(self)@, server_id@) == Ok::<
                    ServersView,
                    ConfigErrorView,
                >(final(self)@),
                Err(e) => switch_server_spec(old(self)@, server_id@) == Err::<
                    ServersView,
                    ConfigErrorView,
                >(e@) && final(self)@ == old(self)@,
            },
    {
        let key = chars_of(server_id);
        match self.find(&key) {
            Some(i) => {
                proof {
                    use_type_invariant(&*self);
                    lemma_entries_lookup(self.servers@, i as int);
                }
                self.active_server = String::from_str(server_id);
                Ok(())
            },
            None => Err(ConfigError::ServerNotFound(String::from_str(server_id))),
        }
    }

    /// Forgets the server `server_id`; the active server cannot be removed.
    pub fn remove_server(&mut self, server_id: &str) -> (r: Result<(), ConfigError>)
        ensures
            match r {
                Ok(_) => remove_server_spec(old(self)@, server_id@) == Ok::<
                    ServersView,
                    ConfigErrorView,
                >(final(self)@),
                Err(e) => remove_server_spec(old(self)@, server_id@) == Err::<
                    ServersView,
                    ConfigErrorView,
                >(e@) && final(self)@ == old(self)@,
            },
    {
        proof {
            use_type_invariant(&*self);
        }
        let key = chars_of(server_id);
        let active = chars_of(self.active_server.as_str());
        if chars_equal(&key, &active) {
            return Err(ConfigError::ActiveServerRemoval);
        }
        match self.find(&key) {
            Some(i) => {
                let ghost old_entries = self.servers@;
                let mut entries: Vec<(String, ServerConfig)> = Vec::new();
                std::mem::swap(&mut entries, &mut self.servers);
                entries.remove(i);
                proof {
                    assert(entries@ == old_entries.remove(i as int));
                    assert(distinct_ids(entries@)) by {
                        assert forall|a: int, b: int|
                            0 <= a < entries@.len() && 0 <= b < entries@.len() && a != b implies
                            entries@[a].0@ != entries@[b].0@ by {
                            let a2 = if a < i { a } else { a + 1 };
                            let b2 = if b < i { b } else { b + 1 };
                            assert(entries@[a] == old_entries[a2]);
                            assert(entries@[b] == old_entries[b2]);
                        }
                    }
                    let target = old(self)@.servers.remove(key@);
                    assert forall|k: Seq<char>| #[trigger]
                        entries_map(entries@).contains_key(k) == target.contains_key(k) by {
                        if exists|j: int| has_id_at(entries@, k, j) {
                            let j = choose|j: int| has_id_at(entries@, k, j);
                            let j2 = if j < i { j } else { j + 1 };
                            assert(entries@[j] == old_entries[j2]);
                            assert(has_id_at(old_entries, k, j2));
                            assert(j2 != i);
                        }
                        if target.contains_key(k) {
                            let j = choose|j: int| has_id_at(old_entries, k, j);
                            assert(j != i);
                            let j1 = if j < i { j } else { j - 1 };
                            assert(entries@[j1] == old_entries[j]);
                            assert(has_id_at(entries@, k, j1));
                        }
                    }
                    assert forall|k: Seq<char>|
                        #[trigger] entries_map(entries@).contains_key(k) implies entries_map(
                        entries@,
                    )[k] == target[k] by {
                        let j = choose|j: int| has_id_at(entries@, k, j);
                        let j2 = if j < i { j } else { j + 1 };
                        assert(entries@[j] == old_entries[j2]);
                        lemma_entries_lookup(entries@, j);
                        lemma_entries_lookup(old_entries, j2);
                    }
                    assert(entries_map(entries@) =~= target);
                    lemma_entries_lookup(old_entries, i as int);
                }
                self.servers = entries;
                assert(self@.servers == old(self)@.servers.remove(server_id@));
                Ok(())
            },
            None => Err(ConfigError::ServerNotFound(String::from_str(server_id))),
        }
    }

    /// Every configured server with its id, each once, in no particular order.
    pub fn list_servers(&self) -> (r: Vec<(String, ServerConfig)>)
        ensures
            distinct_ids(r@),
            entries_map(r@) == self@.servers,
    {
        proof {
            use_type_invariant(self);
        }
        let mut r: Vec<(String, ServerConfig)> = Vec::new();
        let mut i: usize = 0;
        while i < self.servers.len()
            invariant
                i <= self.servers@.len(),
                distinct_ids(self.servers@),
                r@.len() == i,
                forall|j: int| 0 <= j < i ==> r@[j].0@ == self.servers@[j].0@ && r@[j].1
                    == self.servers@[j].1,
            decreases self.servers.len() - i,
        {
            let id = self.servers[i].0.clone();
            let cfg = self.servers[i].1.duplicate();
            r.push((id, cfg));
            i = i + 1;
        }
        proof {
            assert(distinct_ids(r@));
            assert forall|k: Seq<char>| #[trigger]
                entries_map(r@).contains_key(k) == entries_map(self.servers@).contains_key(k) by {
                if exists|j: int| has_id_at(r@, k, j) {
                    let j = choose|j: int| has_id_at(r@, k, j);
                    assert(has_id_at(self.servers@, k, j));
                }
                if exists|j: int| has_id_at(self.servers@, k, j) {
                    let j = choose|j: int| has_id_at(self.servers@, k, j);
                    assert(has_id_at(r@, k, j));
                }
            }
            assert forall|k: Seq<char>|
                #[trigger] entries_map(r@).contains_key(k) implies entries_map(r@)[k]
                == entries_map(self.servers@)[k] by {
                let j = choose|j: int| has_id_at(r@, k, j);
                lemma_entries_lookup(r@, j);
                lemma_entries_lookup(self.servers@, j);
            }
            assert(entries_map(r@) =~= entries_map(self.servers@));
        }
        r
    }
}

/// Switching to a configured server makes it the one `get_active_server`
/// returns, with the configuration stored under its id.
pub proof fn law_switch_then_active(v: ServersView, id: Seq<char>)
    requires
        v.servers.contains_key(id),
    ensures
        switch_server_spec(v, id) is Ok,
        active_server_spec(switch_server_spec(v, id)->Ok_0) == Ok::<ServerConfig, ConfigErrorView>(
            v.servers[id],
        ),
{
}

/// Switching fails exactly when the id is not configured.
pub proof fn law_switch_fails_iff_unknown(v: ServersView, id: Seq<char>)
    ensures
        switch_server_spec(v, id) is Err <==> !v.servers.contains_key(id),
{
}

/// Removing a server never changes which server is active nor what
/// `get_active_server` returns, and the removed id is gone afterwards.
pub proof fn law_remove_keeps_active(v: ServersView, id: Seq<char>)
    requires
        remove_server_spec(v, id) is Ok,
    ensures
        remove_server_spec(v, id)->Ok_0.active_server == v.active_server,
        active_server_spec(remove_server_spec(v, id)->Ok_0) == active_server_spec(v),
        !remove_server_spec(v, id)->Ok_0.servers.contains_key(id),
{
}

/// The active server can never be removed.
pub proof fn law_active_not_removable(v: ServersView)
    ensures
        remove_server_spec(v, v.active_server) == Err::<ServersView, ConfigErrorView>(
            ConfigErrorView::ActiveServerRemoval,
        ),
{
}

/// The Discord bot's settings.
#[derive(Debug)]
pub struct DiscordConfig {
    pub bot_token: String,
    pub application_id: u64,
    pub guild_id: u64,
}

/// The token that the configuration template ships with.
pub open spec fn placeholder_token() -> Seq<char> {
    "YOUR_DISCORD_BOT_TOKEN_HERE"@
}

impl DiscordConfig {
    /// The settings, unless the bot token is still the template's placeholder.
    pub fn validate(self) -> (r: Result<DiscordConfig, ConfigError>)
        ensures
            self.bot_token@ == placeholder_token() ==> (r matches Err(e) && e@
                == ConfigErrorView::PlaceholderBotToken),
            self.bot_token@ != placeholder_token() ==> r == Ok::<DiscordConfig, ConfigError>(self),
    {
        if str_equal(self.bot_token.as_str(), "YOUR_DISCORD_BOT_TOKEN_HERE") {
            Err(ConfigError::PlaceholderBotToken)
        } else {
            Ok(self)
        }
    }
}

} // verus!
