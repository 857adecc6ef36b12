//! What the bot knows about the server it is connected to, and the replies
//! about the server's name, population and time of day.

use vstd::prelude::*;
use crate::number::{
    decimal, decimal_pad2, is_digit, lemma_decimal_digits, push_decimal, push_decimal_pad2,
};

verus! {

/// The server's details that the replies use.
#[derive(Debug)]
pub struct ServerInfo {
    pub name: String,
    pub map_size: u32,
    pub players: u32,
    pub max_players: u32,
    pub queued_players: u32,
}

/// The latest details the server reported, if any yet.
#[derive(Debug)]
pub struct ServerState {
    pub info: Option<ServerInfo>,
}

/// The map size assumed while the server has not reported one.
pub open spec fn default_map_size() -> u32 {
    4000
}

/// The reply about the population of a server with details `i`.
pub open spec fn population_spec(i: ServerInfo) -> Seq<char> {
    "Players: "@ + decimal(i.players as nat) + "/"@ + decimal(i.max_players as nat) + if i.queued_players
        > 0 {
        " ("@ + decimal(i.queued_players as nat) + " in queue)"@
    } else {
        Seq::empty()
    }
}

/// The population reply names the queue exactly when someone is queued:
/// with `q >= 1` players waiting it is "Players: p/m (q in queue)", and with
/// nobody waiting it is "Players: p/m" and ends with the slot count's last
/// digit rather than a closing parenthesis.
pub proof fn law_population_names_queue(i: ServerInfo)
    ensures
        i.queued_players >= 1 ==> population_spec(i) == "Players: "@ + decimal(i.players as nat) + "/"@
            + decimal(i.max_players as nat) + " ("@ + decimal(i.queued_players as nat)
            + " in queue)"@,
        i.queued_players == 0 ==> population_spec(i) == "Players: "@ + decimal(i.players as nat)
            + "/"@ + decimal(i.max_players as nat),
        (population_spec(i).last() == ')') <==> i.queued_players >= 1,
{
    reveal_strlit(" in queue)");
    lemma_decimal_digits(i.max_players as nat);
    let m = decimal(i.max_players as nat);
    assert(is_digit(m[m.len() - 1]));
    let p = population_spec(i);
    if i.queued_players >= 1 {
        assert(p =~= "Players: "@ + decimal(i.players as nat) + "/"@ + decimal(
            i.max_players as nat,
        ) + " ("@ + decimal(i.queued_players as nat) + " in queue)"@);
        assert(p.last() == " in queue)"@.last());
    } else {
        assert(p =~= "Players: "@ + decimal(i.players as nat) + "/"@ + m);
        assert(p.last() == m.last());
    }
}

impl ServerState {
    /// Nothing reported yet.
    pub fn new() -> (r: ServerState)
        ensures
            r.info is None,
    {
        ServerState { info: None }
    }

    /// The server's name, once reported.
    pub fn get_server_info(&self) -> (r: Option<String>)
        ensures
            match &self.info {
                Some(i) => r matches Some(s) && s@ == i.name@,
                None => r is None,
            },
    {
        match &self.info {
            Some(i) => Some(i.name.clone()),
            None => None,
        }
    }

    /// The player count with the slots and, when players wait, the queue,
    /// once reported.
    pub fn get_population_info(&self) -> (r: Option<String>)
        ensures
            match &self.info {
                Some(i) => r matches Some(s) && s@ == population_spec(*i),
                None => r is None,
            },
    {
        match &self.info {
            Some(i) => {
                let mut s = String::from_str("Players: ");
                push_decimal(&mut s, i.players as u64);
                s.append("/");
                push_decimal(&mut s, i.max_players as u64);
                if i.queued_players > 0 {
                    s.append(" (");
                    push_decimal(&mut s, i.queued_players as u64);
                    s.append(" in queue)");
                }
                assert(s@ =~= population_spec(*i));
                Some(s)
            },
            None => None,
        }
    }

    /// The reported map size, or the usual size while none is known.
    pub fn map_size_or_default(&self) -> (r: u32)
        ensures
            match &self.info {
                Some(i) => r == i.map_size,
                None => r == default_map_size(),
            },
    {
        match &self.info {
            Some(i) => i.map_size,
            None => 4000,
        }
    }
}

/// The countdown to night.
pub open spec fn night_countdown_spec(minutes: nat, seconds: nat) -> Seq<char> {
    decimal(minutes) + " minutes and "@ + decimal(seconds) + " seconds until night"@
}

/// The countdown to day.
pub open spec fn day_countdown_spec(minutes: nat, seconds: nat) -> Seq<char> {
    decimal(minutes) + " minutes and "@ + decimal(seconds) + " seconds until day"@
}

/// The countdown to night, in real minutes and seconds.
pub fn night_countdown_message(minutes: u32, seconds: u32) -> (r: String)
    ensures
        r@ == night_countdown_spec(minutes as nat, seconds as nat),
{
    let mut s = String::new();
    push_decimal(&mut s, minutes as u64);
    s.append(" minutes and ");
    push_decimal(&mut s, seconds as u64);
    s.append(" seconds until night");
    assert(s@ =~= night_countdown_spec(minutes as nat, seconds as nat));
    s
}

/// The countdown to day, in real minutes and seconds.
pub fn day_countdown_message(minutes: u32, seconds: u32) -> (r: String)
    ensures
        r@ == day_countdown_spec(minutes as nat, seconds as nat),
{
    let mut s = String::new();
    push_decimal(&mut s, minutes as u64);
    s.append(" minutes and ");
    push_decimal(&mut s, seconds as u64);
    s.append(" seconds until day");
    assert(s@ =~= day_countdown_spec(minutes as nat, seconds as nat));
    s
}

/// The name of the phase of the day, and of the phase that follows it.
pub open spec fn phase_name(is_daytime: bool) -> Seq<char> {
    if is_daytime {
        "Day"@
    } else {
        "Night"@
    }
}

/// The in-game clock with the current phase and the wait for the next one.
pub open spec fn time_of_day_spec(
    hours: nat,
    minutes: nat,
    is_daytime: bool,
    wait_minutes: nat,
    wait_seconds: nat,
) -> Seq<char> {
    decimal_pad2(hours) + ":"@ + decimal_pad2(minutes) + " ("@ + phase_name(is_daytime) + ") - "@
        + phase_name(!is_daytime) + " in "@ + decimal(wait_minutes) + "m "@ + decimal(wait_seconds)
        + "s"@
}

/// The in-game clock `hours:minutes` (two digits each), whether it is day,
/// and the real time until the other phase begins, e.g.
/// "14:23 (Day) - Night in 42m 34s".
pub fn time_of_day_message(
    hours: u32,
    minutes: u32,
    is_daytime: bool,
    wait_minutes: u32,
    wait_seconds: u32,
) -> (r: String)
    ensures
        r@ == time_of_day_spec(
            hours as nat,
            minutes as nat,
            is_daytime,
            wait_minutes as nat,
            wait_seconds as nat,
        ),
{
    let mut s = String::new();
    push_decimal_pad2(&mut s, hours as u64);
    s.append(":");
    push_decimal_pad2(&mut s, minutes as u64);
    s.append(" (");
    if is_daytime {
        s.append("Day");
    } else {
        s.append("Night");
    }
    s.append(") - ");
    if is_daytime {
        s.append("Night");
    } else {
        s.append("Day");
    }
    s.append(" in ");
    push_decimal(&mut s, wait_minutes as u64);
    s.append("m ");
    push_decimal(&mut s, wait_seconds as u64);
    s.append("s");
    assert(s@ =~= time_of_day_spec(
        hours as nat,
        minutes as nat,
        is_daytime,
        wait_minutes as nat,
        wait_seconds as nat,
    ));
    s
}

} // verus!
