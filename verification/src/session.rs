//! The decisions of a connection to a game server: which team-chat commands
//! were typed and where their replies go, which request a marker reply
//! answers, which server errors end the session, and when to reconnect.

use vstd::prelude::*;
use crate::config::ServerConfig;
use crate::number::{decimal, push_decimal};
use crate::text::{
    all_ascii, ascii_lower_char, chars_of, lemma_trim_keeps_ascii, contains_seq, lowercase, str_contains, str_equal, string_from_chars, to_lowercase,
    trim, trim_chars,
};

verus! {

/// What a team-chat command asks for.
#[derive(Clone, Copy, Debug, PartialEq, Eq)]
pub enum ChatCommand {
    ShowEvents,
    GetMarkers,
    DebugMarkers,
    Help,
    Time,
    Pop,
    Info,
    Night,
    Day,
    MapDebug,
    TestMonuments,
    Unknown,
}

/// The command that the normalised text `s` names.
pub open spec fn command_of(s: Seq<char>) -> ChatCommand {
    if s == "!showevents"@ {
        ChatCommand::ShowEvents
    } else if s == "!getmarkers"@ {
        ChatCommand::GetMarkers
    } else if s == "!debugmarkers"@ {
        ChatCommand::DebugMarkers
    } else if s == "!help"@ {
        ChatCommand::Help
    } else if s == "!time"@ {
        ChatCommand::Time
    } else if s == "!pop"@ {
        ChatCommand::Pop
    } else if s == "!info"@ {
        ChatCommand::Info
    } else if s == "!night"@ {
        ChatCommand::Night
    } else if s == "!day"@ {
        ChatCommand::Day
    } else if s == "!mapdebug"@ {
        ChatCommand::MapDebug
    } else if s == "!testmonuments"@ {
        ChatCommand::TestMonuments
    } else {
        ChatCommand::Unknown
    }
}

/// The command in a team-chat message: messages that begin with `!` are
/// trimmed and lower-cased, then matched against the command words.
pub open spec fn classify_spec(text: Seq<char>) -> Option<ChatCommand> {
    if text.len() > 0 && text[0] == '!' {
        Some(command_of(lowercase(trim(text))))
    } else {
        None
    }
}

/// The command named by the already trimmed and lower-cased text `s`.
pub fn command_from_text(s: &str) -> (r: ChatCommand)
    ensures
        r == command_of(s@),
{
    if str_equal(s, "!showevents") {
        ChatCommand::ShowEvents
    } else if str_equal(s, "!getmarkers") {
        ChatCommand::GetMarkers
    } else if str_equal(s, "!debugmarkers") {
        ChatCommand::DebugMarkers
    } else if str_equal(s, "!help") {
        ChatCommand::Help
    } else if str_equal(s, "!time") {
        ChatCommand::Time
    } else if str_equal(s, "!pop") {
        ChatCommand::Pop
    } else if str_equal(s, "!info") {
        ChatCommand::Info
    } else if str_equal(s, "!night") {
        ChatCommand::Night
    } else if str_equal(s, "!day") {
        ChatCommand::Day
    } else if str_equal(s, "!mapdebug") {
        ChatCommand::MapDebug
    } else if str_equal(s, "!testmonuments") {
        ChatCommand::TestMonuments
    } else {
        ChatCommand::Unknown
    }
}

/// The command a team-chat message gives, or `None` when it does not begin
/// with `!`.
pub fn classify_command(text: &str) -> (r: Option<ChatCommand>)
    ensures
        r == classify_spec(text@),
        all_ascii(text@) ==> r == classify_ascii_spec(text@),
{
    let chars = chars_of(text);
    if chars.len() == 0 || chars[0] != '!' {
        return None;
    }
    let trimmed = trim_chars(&chars);
    let trimmed_text = string_from_chars(&trimmed);
    proof {
        if all_ascii(text@) {
            lemma_trim_keeps_ascii(text@);
        }
    }
    let lower = to_lowercase(trimmed_text.as_str());
    Some(command_from_text(lower.as_str()))
}

/// The command in an ASCII team-chat message: commands are matched
/// regardless of letter case and of surrounding whitespace.
pub open spec fn classify_ascii_spec(text: Seq<char>) -> Option<ChatCommand> {
    if text.len() > 0 && text[0] == '!' {
        Some(command_of(trim(text).map_values(|c: char| ascii_lower_char(c))))
    } else {
        None
    }
}

/// Which report a marker request is for.
#[derive(Clone, Copy, Debug, PartialEq, Eq)]
pub enum MarkerQuery {
    /// The active events, for the team chat.
    Events,
    /// Counts by kind, for the terminal.
    Summary,
    /// Details of each marker, for the terminal.
    Debug,
}

/// The marker report a command asks for, if it asks for one.
pub open spec fn marker_query_spec(c: ChatCommand) -> Option<MarkerQuery> {
    match c {
        ChatCommand::ShowEvents => Some(MarkerQuery::Events),
        ChatCommand::GetMarkers => Some(MarkerQuery::Summary),
        ChatCommand::DebugMarkers => Some(MarkerQuery::Debug),
        _ => None,
    }
}

/// The reply to a command goes to the team chat (rather than the terminal).
pub open spec fn replies_in_chat_spec(c: ChatCommand) -> bool {
    match c {
        ChatCommand::MapDebug | ChatCommand::TestMonuments | ChatCommand::GetMarkers
        | ChatCommand::DebugMarkers => false,
        _ => true,
    }
}

/// A reply goes to the terminal exactly for the debugging commands
/// `!mapdebug`, `!testmonuments`, `!getmarkers` and `!debugmarkers`; every
/// other command, unknown ones included, is answered in team chat.
pub proof fn law_terminal_only_for_debug_commands(s: Seq<char>)
    ensures
        !replies_in_chat_spec(command_of(s)) <==> (s == "!mapdebug"@ || s == "!testmonuments"@ || s
            == "!getmarkers"@ || s == "!debugmarkers"@),
        forall|c: ChatCommand|
            !#[trigger] replies_in_chat_spec(c) <==> (c == ChatCommand::MapDebug || c
                == ChatCommand::TestMonuments || c == ChatCommand::GetMarkers || c
                == ChatCommand::DebugMarkers),
{
    reveal_strlit("!showevents");
    reveal_strlit("!getmarkers");
    reveal_strlit("!debugmarkers");
    reveal_strlit("!help");
    reveal_strlit("!time");
    reveal_strlit("!pop");
    reveal_strlit("!info");
    reveal_strlit("!night");
    reveal_strlit("!day");
    reveal_strlit("!mapdebug");
    reveal_strlit("!testmonuments");
    assert("!showevents"@.len() == 11);
    assert("!getmarkers"@.len() == 11);
    assert("!debugmarkers"@.len() == 13);
    assert("!help"@.len() == 5);
    assert("!time"@.len() == 5);
    assert("!pop"@.len() == 4);
    assert("!info"@.len() == 5);
    assert("!night"@.len() == 6);
    assert("!day"@.len() == 4);
    assert("!mapdebug"@.len() == 9);
    assert("!testmonuments"@.len() == 14);
    assert("!getmarkers"@[1] != "!showevents"@[1]);
    if s == "!mapdebug"@ {
        assert(command_of(s) == ChatCommand::MapDebug);
    } else if s == "!testmonuments"@ {
        assert(command_of(s) == ChatCommand::TestMonuments);
    } else if s == "!getmarkers"@ {
        assert(command_of(s) == ChatCommand::GetMarkers);
    } else if s == "!debugmarkers"@ {
        assert(command_of(s) == ChatCommand::DebugMarkers);
    }
}

/// The reply to a command that does not depend on the server's state.
pub open spec fn fixed_reply_spec(c: ChatCommand) -> Option<Seq<char>> {
    match c {
        ChatCommand::Help => Some("Commands: !time, !night, !day, !pop, !info, !showevents"@),
        ChatCommand::Unknown => Some("Unknown command. Type !help for available commands"@),
        _ => None,
    }
}

impl ChatCommand {
    /// The marker report this command asks for, if it asks for one.
    pub fn marker_query(&self) -> (r: Option<MarkerQuery>)
        ensures
            r == marker_query_spec(*self),
    {
        match self {
            ChatCommand::ShowEvents => Some(MarkerQuery::Events),
            ChatCommand::GetMarkers => Some(MarkerQuery::Summary),
            ChatCommand::DebugMarkers => Some(MarkerQuery::Debug),
            _ => None,
        }
    }

    /// Whether the reply to this command goes to the team chat; debugging
    /// output goes to the terminal only.
    pub fn replies_in_chat(&self) -> (r: bool)
        ensures
            r == replies_in_chat_spec(*self),
    {
        match self {
            ChatCommand::MapDebug | ChatCommand::TestMonuments | ChatCommand::GetMarkers
            | ChatCommand::DebugMarkers => false,
            _ => true,
        }
    }

    /// The reply of the commands that need no server state: the help line
    /// and the answer to an unknown command.
    pub fn fixed_reply(&self) -> (r: Option<String>)
        ensures
            match r {
                Some(s) => fixed_reply_spec(*self) == Some(s@),
                None => fixed_reply_spec(*self) is None,
            },
    {
        match self {
            ChatCommand::Help => Some(
                String::from_str("Commands: !time, !night, !day, !pop, !info, !showevents"),
            ),
            ChatCommand::Unknown => Some(
                String::from_str("Unknown command. Type !help for available commands"),
            ),
            _ => None,
        }
    }
}

/// Where the reply to a command comes from.
#[derive(Clone, Copy, Debug, PartialEq, Eq)]
pub enum ReplySource {
    /// A text that needs no server state (`fixed_reply`).
    Fixed,
    /// The in-game clock and the wait for the next phase.
    TimeOfDay,
    /// The player counts.
    Population,
    /// The server's name.
    ServerName,
    /// The wait until night.
    UntilNight,
    /// The wait until day.
    UntilDay,
    /// The map's metadata.
    MapDebug,
    /// A sample of monuments with their grid cells.
    MonumentTest,
    /// A marker report, answered when the server sends the markers.
    Markers(MarkerQuery),
}

/// Where the reply to command `c` comes from.
pub open spec fn reply_source_spec(c: ChatCommand) -> ReplySource {
    match c {
        ChatCommand::ShowEvents => ReplySource::Markers(MarkerQuery::Events),
        ChatCommand::GetMarkers => ReplySource::Markers(MarkerQuery::Summary),
        ChatCommand::DebugMarkers => ReplySource::Markers(MarkerQuery::Debug),
        ChatCommand::Help | ChatCommand::Unknown => ReplySource::Fixed,
        ChatCommand::Time => ReplySource::TimeOfDay,
        ChatCommand::Pop => ReplySource::Population,
        ChatCommand::Info => ReplySource::ServerName,
        ChatCommand::Night => ReplySource::UntilNight,
        ChatCommand::Day => ReplySource::UntilDay,
        ChatCommand::MapDebug => ReplySource::MapDebug,
        ChatCommand::TestMonuments => ReplySource::MonumentTest,
    }
}

impl ChatCommand {
    /// Where the reply to this command comes from.
    pub fn reply_source(&self) -> (r: ReplySource)
        ensures
            r == reply_source_spec(*self),
    {
        match self {
            ChatCommand::ShowEvents => ReplySource::Markers(MarkerQuery::Events),
            ChatCommand::GetMarkers => ReplySource::Markers(MarkerQuery::Summary),
            ChatCommand::DebugMarkers => ReplySource::Markers(MarkerQuery::Debug),
            ChatCommand::Help | ChatCommand::Unknown => ReplySource::Fixed,
            ChatCommand::Time => ReplySource::TimeOfDay,
            ChatCommand::Pop => ReplySource::Population,
            ChatCommand::Info => ReplySource::ServerName,
            ChatCommand::Night => ReplySource::UntilNight,
            ChatCommand::Day => ReplySource::UntilDay,
            ChatCommand::MapDebug => ReplySource::MapDebug,
            ChatCommand::TestMonuments => ReplySource::MonumentTest,
        }
    }
}

/// A marker report goes to the team chat (rather than the terminal).
pub open spec fn query_replies_in_chat_spec(q: MarkerQuery) -> bool {
    q == MarkerQuery::Events
}

impl MarkerQuery {
    /// Whether this report goes to the team chat; the summary and the
    /// detailed listing are printed on the terminal only.
    pub fn replies_in_chat(&self) -> (r: bool)
        ensures
            r == query_replies_in_chat_spec(*self),
    {
        match self {
            MarkerQuery::Events => true,
            _ => false,
        }
    }
}

/// A marker report goes where the reply to the command that asked for it
/// goes, and the commands whose reply is fixed text are those with a fixed
/// reply.
pub proof fn law_reply_routing_agrees(c: ChatCommand)
    ensures
        reply_source_spec(c) matches ReplySource::Markers(q) ==> marker_query_spec(c) == Some(q)
            && query_replies_in_chat_spec(q) == replies_in_chat_spec(c),
        (reply_source_spec(c) == ReplySource::Fixed) == (fixed_reply_spec(c) is Some),
{
}

/// The reply while the server has not yet sent its map.
pub fn map_not_loaded_reply() -> (r: String)
    ensures
        r@ == "Map data not loaded yet"@,
{
    String::from_str("Map data not loaded yet")
}

/// Request numbering and the marker request awaiting its reply.
#[derive(Debug)]
pub struct ChatSession {
    /// The number of the latest request sent from the chat loop.
    pub seq_counter: u32,
    /// The marker request awaiting its reply: its number and report.
    pub pending: Option<(u32, MarkerQuery)>,
}

/// The first request number of the chat loop, less one.
pub open spec fn initial_chat_seq() -> u32 {
    100
}

impl ChatSession {
    /// No request sent yet.
    pub fn new() -> (r: ChatSession)
        ensures
            r.seq_counter == initial_chat_seq(),
            r.pending is None,
            (r.seq_counter, r.pending) == session_run(Seq::empty()),
    {
        ChatSession { seq_counter: 100, pending: None }
    }

    /// Whether another request number can be given.
    pub fn can_issue(&self) -> (r: bool)
        ensures
            r == (self.seq_counter < u32::MAX),
    {
        self.seq_counter < u32::MAX
    }

    /// The number for the next request sent to the server.
    pub fn next_seq(&mut self) -> (r: u32)
        requires
            old(self).seq_counter < u32::MAX,
        ensures
            r == old(self).seq_counter + 1,
            final(self).seq_counter == r,
            final(self).pending == old(self).pending,
            session_step(old(self).seq_counter, old(self).pending, SessionOp::NextSeq) == (
                final(self).seq_counter,
                final(self).pending,
                Some(r),
            ),
    {
        self.seq_counter = self.seq_counter + 1;
        self.seq_counter
    }

    /// Numbers a marker request for the report `query` and remembers it as
    /// the one awaiting a reply (replacing any earlier one).
    pub fn begin_marker_query(&mut self, query: MarkerQuery) -> (r: u32)
        requires
            old(self).seq_counter < u32::MAX,
        ensures
            r == old(self).seq_counter + 1,
            final(self).seq_counter == r,
            final(self).pending == Some((r, query)),
            session_step(old(self).seq_counter, old(self).pending, SessionOp::BeginQuery(query))
                == (final(self).seq_counter, final(self).pending, Some(r)),
    {
        let seq = self.next_seq();
        self.pending = Some((seq, query));
        seq
    }

    /// The report that a marker reply numbered `seq` answers, if it answers
    /// the awaited request; that request is then no longer awaited.
    pub fn take_marker_reply(&mut self, seq: u32) -> (r: Option<MarkerQuery>)
        ensures
            final(self).seq_counter == old(self).seq_counter,
            (r, final(self).pending) == take_reply_spec(old(self).pending, seq),
            session_step(old(self).seq_counter, old(self).pending, SessionOp::TakeReply(seq)) == (
                final(self).seq_counter,
                final(self).pending,
                None::<u32>,
            ),
    {
        match self.pending {
            Some((s, q)) => {
                if s == seq {
                    self.pending = None;
                    Some(q)
                } else {
                    None
                }
            },
            None => None,
        }
    }
}

/// One thing the chat loop does with its session.
#[derive(Clone, Copy, Debug, PartialEq, Eq)]
pub enum SessionOp {
    /// Number a request (a team-chat message).
    NextSeq,
    /// Number a marker request for a report and await its reply.
    BeginQuery(MarkerQuery),
    /// Take a marker reply with this number.
    TakeReply(u32),
}

/// A session's counter and awaited request after `op`, and the request
/// number it issued, if any.
pub open spec fn session_step(
    counter: u32,
    pending: Option<(u32, MarkerQuery)>,
    op: SessionOp,
) -> (u32, Option<(u32, MarkerQuery)>, Option<u32>) {
    match op {
        SessionOp::NextSeq => ((counter + 1) as u32, pending, Some((counter + 1) as u32)),
        SessionOp::BeginQuery(q) => (
            (counter + 1) as u32,
            Some(((counter + 1) as u32, q)),
            Some((counter + 1) as u32),
        ),
        SessionOp::TakeReply(seq) => (counter, take_reply_spec(pending, seq).1, None),
    }
}

/// The counter and awaited request after the operations `ops`, from a new
/// session.
pub open spec fn session_run(ops: Seq<SessionOp>) -> (u32, Option<(u32, MarkerQuery)>)
    decreases ops.len(),
{
    if ops.len() == 0 {
        (initial_chat_seq(), None)
    } else {
        let prev = session_run(ops.drop_last());
        let next = session_step(prev.0, prev.1, ops.last());
        (next.0, next.1)
    }
}

/// The request numbers issued by the operations `ops`, in order, from a new
/// session.
pub open spec fn session_issued(ops: Seq<SessionOp>) -> Seq<u32>
    decreases ops.len(),
{
    if ops.len() == 0 {
        Seq::empty()
    } else {
        let prev = session_run(ops.drop_last());
        match session_step(prev.0, prev.1, ops.last()).2 {
            Some(n) => session_issued(ops.drop_last()).push(n),
            None => session_issued(ops.drop_last()),
        }
    }
}

/// How many of `ops` issue a request number.
pub open spec fn issuing_count(ops: Seq<SessionOp>) -> nat
    decreases ops.len(),
{
    if ops.len() == 0 {
        0
    } else {
        issuing_count(ops.drop_last()) + if ops.last() is TakeReply {
            0nat
        } else {
            1nat
        }
    }
}

proof fn lemma_session_run_counts(ops: Seq<SessionOp>)
    requires
        issuing_count(ops) + initial_chat_seq() <= u32::MAX,
    ensures
        session_run(ops).0 == initial_chat_seq() + issuing_count(ops),
        session_issued(ops).len() == issuing_count(ops),
        forall|i: int|
            0 <= i < session_issued(ops).len() ==> #[trigger] session_issued(ops)[i]
                == initial_chat_seq() + 1 + i,
    decreases ops.len(),
{
    if ops.len() > 0 {
        let p = ops.drop_last();
        assert(issuing_count(p) <= issuing_count(ops));
        lemma_session_run_counts(p);
        let prev = session_issued(p);
        assert forall|i: int|
            0 <= i < session_issued(ops).len() implies #[trigger] session_issued(ops)[i]
            == initial_chat_seq() + 1 + i by {
            if i < prev.len() {
                assert(session_issued(ops)[i] == prev[i]);
            }
        }
    }
}

/// Over any run of the chat loop that does not run out of numbers, every
/// request it numbers is above 100 and above every request numbered before
/// it: the `i`-th number issued is `101 + i`.
pub proof fn law_request_numbers_rise(ops: Seq<SessionOp>)
    requires
        issuing_count(ops) + initial_chat_seq() <= u32::MAX,
    ensures
        forall|i: int|
            0 <= i < session_issued(ops).len() ==> #[trigger] session_issued(ops)[i]
                == initial_chat_seq() + 1 + i,
        forall|i: int| 0 <= i < session_issued(ops).len() ==> #[trigger] session_issued(ops)[i] > initial_chat_seq(),
        forall|i: int, j: int|
            0 <= i < j < session_issued(ops).len() ==> #[trigger] session_issued(ops)[i]
                < #[trigger] session_issued(ops)[j],
{
    lemma_session_run_counts(ops);
}

/// The report that a reply numbered `seq` answers, and what is awaited
/// afterwards, when `pending` was awaited before.
pub open spec fn take_reply_spec(pending: Option<(u32, MarkerQuery)>, seq: u32) -> (
    Option<MarkerQuery>,
    Option<(u32, MarkerQuery)>,
) {
    match pending {
        Some((s, q)) => if s == seq {
            (Some(q), None)
        } else {
            (None, pending)
        },
        None => (None, None),
    }
}

/// A marker reply answers its request once: the same reply taken again
/// finds nothing awaited.
pub proof fn law_marker_reply_taken_once(pending: Option<(u32, MarkerQuery)>, seq: u32)
    ensures
        take_reply_spec(take_reply_spec(pending, seq).1, seq).0 is None,
{
}

/// A reply to the request just begun answers it with the report asked for.
pub proof fn law_begun_query_is_answered(counter: u32, query: MarkerQuery)
    requires
        counter < u32::MAX,
    ensures
        take_reply_spec(Some(((counter + 1) as u32, query)), (counter + 1) as u32) == (
            Some(query),
            None::<(u32, MarkerQuery)>,
        ),
{
}

/// A server error that means the pairing token is no longer accepted.
pub open spec fn is_auth_error_spec(msg: Seq<char>) -> bool {
    contains_seq(msg, "not paired"@) || contains_seq(msg, "auth"@) || contains_seq(msg, "token"@)
        || contains_seq(msg, "unauthorized"@)
}

/// Whether the server's error `msg` means the pairing is no longer valid,
/// which ends the session for good.
pub fn is_auth_error(msg: &str) -> (r: bool)
    ensures
        r == is_auth_error_spec(msg@),
{
    str_contains(msg, "not paired") || str_contains(msg, "auth") || str_contains(msg, "token")
        || str_contains(msg, "unauthorized")
}

/// How a connection to the game server ended.
#[derive(Clone, Copy, Debug, PartialEq, Eq)]
pub enum ReconnectAction {
    /// The user picked another server.
    SwitchServer,
    /// The connection failed or was closed; try again.
    Retry,
    /// The server refused the pairing; stop for good.
    Stop,
}

/// What to do after a connection ended.
#[derive(Clone, Copy, Debug, PartialEq, Eq)]
pub enum ReconnectStep {
    /// Connect again after waiting this many seconds.
    Reconnect { delay_secs: u64 },
    /// Too many failures in a row: stop.
    GiveUp,
    /// Stop at once.
    Shutdown,
}

/// How many failed connections in a row make the bot give up.
pub open spec fn max_reconnect_attempts() -> u32 {
    5
}

/// Two to the power `n`.
pub open spec fn pow2(n: nat) -> nat
    decreases n,
{
    if n == 0 {
        1
    } else {
        2 * pow2((n - 1) as nat)
    }
}

/// The failures counted after a connection ended with `action`, when
/// `attempts` were counted before, and what to do next.
pub open spec fn reconnect_spec(attempts: u32, action: ReconnectAction) -> (u32, ReconnectStep) {
    match action {
        ReconnectAction::SwitchServer => (0, ReconnectStep::Reconnect { delay_secs: 1 }),
        ReconnectAction::Retry => if attempts + 1 >= max_reconnect_attempts() {
            (max_reconnect_attempts(), ReconnectStep::GiveUp)
        } else {
            (
                (attempts + 1) as u32,
                ReconnectStep::Reconnect { delay_secs: pow2((attempts + 1) as nat) as u64 },
            )
        },
        ReconnectAction::Stop => (attempts, ReconnectStep::Shutdown),
    }
}

/// The count of failed connections in a row.
#[derive(Debug)]
pub struct ReconnectPolicy {
    attempts: u32,
}

impl ReconnectPolicy {
    #[verifier::type_invariant]
    spec fn attempts_bounded(&self) -> bool {
        self.attempts <= max_reconnect_attempts()
    }

    /// The failures counted so far.
    pub closed spec fn failures(&self) -> u32 {
        self.attempts
    }

    /// No failure yet.
    pub fn new() -> (r: ReconnectPolicy)
        ensures
            r.failures() == 0,
    {
        ReconnectPolicy { attempts: 0 }
    }

    /// The failures counted so far.
    pub fn attempts(&self) -> (r: u32)
        ensures
            r == self.failures(),
            r <= max_reconnect_attempts(),
    {
        proof {
            use_type_invariant(self);
        }
        self.attempts
    }

    /// How many failures in a row make the bot give up.
    pub fn max_attempts(&self) -> (r: u32)
        ensures
            r == max_reconnect_attempts(),
    {
        5
    }

    /// Counts how the last connection ended and says what to do next: a
    /// server switch starts afresh after a second, a failure waits twice as
    /// long as the one before (2 s, 4 s, ...) until the fifth in a row, when
    /// the bot gives up, and a refused pairing stops it.
    pub fn on_connection_end(&mut self, action: ReconnectAction) -> (r: ReconnectStep)
        ensures
            (final(self).failures(), r) == reconnect_spec(old(self).failures(), action),
    {
        proof {
            use_type_invariant(&*self);
        }
        match action {
            ReconnectAction::SwitchServer => {
                self.attempts = 0;
                ReconnectStep::Reconnect { delay_secs: 1 }
            },
            ReconnectAction::Retry => {
                if self.attempts + 1 >= 5 {
                    self.attempts = 5;
                    ReconnectStep::GiveUp
                } else {
                    self.attempts = self.attempts + 1;
                    let mut delay: u64 = 1;
                    let mut k: u32 = 0;
                    while k < self.attempts
                        invariant
                            k <= self.attempts,
                            self.attempts < 5,
                            delay == pow2(k as nat),
                        decreases self.attempts - k,
                    {
                        proof {
                            assert(pow2(k as nat) <= 16) by {
                                assert(pow2(0) == 1);
                                assert(pow2(1) == 2);
                                assert(pow2(2) == 4);
                                assert(pow2(3) == 8);
                            }
                        }
                        delay = delay * 2;
                        k = k + 1;
                    }
                    ReconnectStep::Reconnect { delay_secs: delay }
                }
            },
            ReconnectAction::Stop => ReconnectStep::Shutdown,
        }
    }

    /// The line announcing a connection to `server`: the first attempt, or
    /// the attempt number out of the limit.
    pub fn connection_banner(&self, server: &ServerConfig) -> (r: String)
        ensures
            r@ == banner_spec(self.failures(), *server),
    {
        proof {
            use_type_invariant(self);
        }
        if self.attempts == 0 {
            let mut s = String::from_str("Connecting to: ");
            s.append(server.name.as_str());
            s.append(" (");
            s.append(server.server_ip.as_str());
            s.append(":");
            push_decimal(&mut s, server.server_port as u64);
            s.append(")\n");
            assert(s@ =~= banner_spec(self.failures(), *server));
            s
        } else {
            let mut s = String::from_str("Reconnecting to: ");
            s.append(server.name.as_str());
            s.append(" (attempt ");
            push_decimal(&mut s, (self.attempts + 1) as u64);
            s.append("/");
            push_decimal(&mut s, 5);
            s.append(")\n");
            assert(s@ =~= banner_spec(self.failures(), *server));
            s
        }
    }
}

/// The line announcing a connection after `attempts` failures.
pub open spec fn banner_spec(attempts: u32, server: ServerConfig) -> Seq<char> {
    if attempts == 0 {
        "Connecting to: "@ + server.name@ + " ("@ + server.server_ip@ + ":"@ + decimal(
            server.server_port as nat,
        ) + ")\n"@
    } else {
        "Reconnecting to: "@ + server.name@ + " (attempt "@ + decimal((attempts + 1) as nat) + "/"@
            + decimal(max_reconnect_attempts() as nat) + ")\n"@
    }
}

/// The failures counted, and the last step, after `n` failed connections in
/// a row from a fresh start.
pub open spec fn retries_from_fresh(n: nat) -> (u32, ReconnectStep)
    decreases n,
{
    if n == 0 {
        (0, ReconnectStep::Reconnect { delay_secs: 1 })
    } else {
        reconnect_spec(retries_from_fresh((n - 1) as nat).0, ReconnectAction::Retry)
    }
}

/// Exponential backoff: after `n` failures in a row from a fresh start the
/// bot waits 2^n seconds while `n` is below the limit, and gives up at the
/// limit.
pub proof fn law_backoff_doubles(n: nat)
    requires
        1 <= n <= max_reconnect_attempts(),
    ensures
        n < max_reconnect_attempts() ==> retries_from_fresh(n) == (
            n as u32,
            ReconnectStep::Reconnect { delay_secs: pow2(n) as u64 },
        ),
        n == max_reconnect_attempts() ==> retries_from_fresh(n).1 == ReconnectStep::GiveUp,
{
    assert(pow2(0) == 1);
    assert(pow2(1) == 2 * pow2(0));
    assert(pow2(2) == 2 * pow2(1));
    assert(pow2(3) == 2 * pow2(2));
    assert(pow2(4) == 2 * pow2(3));
    assert(pow2(4) == 16);
    let r0 = retries_from_fresh(0);
    assert(r0.0 == 0);
    let r1 = retries_from_fresh(1);
    assert(r1 == reconnect_spec(r0.0, ReconnectAction::Retry));
    assert(r1 == (1u32, ReconnectStep::Reconnect { delay_secs: 2 }));
    let r2 = retries_from_fresh(2);
    assert(r2 == reconnect_spec(r1.0, ReconnectAction::Retry));
    assert(r2 == (2u32, ReconnectStep::Reconnect { delay_secs: 4 }));
    let r3 = retries_from_fresh(3);
    assert(r3 == reconnect_spec(r2.0, ReconnectAction::Retry));
    assert(r3 == (3u32, ReconnectStep::Reconnect { delay_secs: 8 }));
    let r4 = retries_from_fresh(4);
    assert(r4 == reconnect_spec(r3.0, ReconnectAction::Retry));
    assert(r4 == (4u32, ReconnectStep::Reconnect { delay_secs: 16 }));
    let r5 = retries_from_fresh(5);
    assert(r5 == reconnect_spec(r4.0, ReconnectAction::Retry));
    assert(r5.1 == ReconnectStep::GiveUp);
}

/// A server switch always starts counting failures afresh.
pub proof fn law_switch_resets_failures(attempts: u32)
    ensures
        reconnect_spec(attempts, ReconnectAction::SwitchServer).0 == 0,
{
}

} // verus!
