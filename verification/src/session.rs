//! Chat rooms ("sessions"), their messages, and the rules for creating and
//! changing them.

use vstd::prelude::*;
use vstd::arithmetic::power2::pow2;
use crate::text::{opt_str_view, opt_view};

verus! {

/// One chat room. Its agent roster is kept separately, as an ordered list
/// of agent ids.
#[derive(Debug, Clone)]
pub struct Session {
    pub id: String,
    pub topic: String,
    /// "sequential" | "mention"
    pub mode: String,
    /// "idle" | "running" | "awaiting_user"
    pub status: String,
    /// Unix timestamp (seconds since epoch).
    pub created_at: i64,
}

/// One message of a session: either something the user said (`agent_id`
/// is `None`) or one agent's reply.
#[derive(Debug, Clone)]
pub struct Message {
    pub id: String,
    pub session_id: String,
    /// `None` means the user sent this message.
    pub agent_id: Option<String>,
    /// Every message of one round (the user's message that starts it plus
    /// each agent's reply) shares the same number, starting at 1.
    pub round_number: i64,
    pub content: String,
    /// In mention mode, the agent the user's message is addressed to.
    pub refers_to: Option<String>,
    /// Unix timestamp (seconds since epoch).
    pub created_at: i64,
}

pub const MODE_SEQUENTIAL: &'static str = "sequential";

pub const MODE_MENTION: &'static str = "mention";

pub const STATUS_IDLE: &'static str = "idle";

pub const STATUS_RUNNING: &'static str = "running";

pub const STATUS_AWAITING_USER: &'static str = "awaiting_user";

// ---------------------------------------------------------------------
// Clock

#[verifier::external_type_specification]
#[verifier::external_body]
pub struct ExSystemTime(std::time::SystemTime);

/// Calls `std::time::SystemTime::now`. Nothing is promised of the
/// result: it is the machine's wall clock.
#[verifier::external_body]
fn clock_now() -> std::time::SystemTime {
    std::time::SystemTime::now()
}

/// Calls `SystemTime::duration_since(UNIX_EPOCH)`; `None` when the time
/// lies before the epoch (the call's error). Nothing more is promised: the
/// time is opaque here.
#[verifier::external_body]
fn since_epoch(t: std::time::SystemTime) -> Option<std::time::Duration> {
    match t.duration_since(std::time::UNIX_EPOCH) {
        Ok(d) => Some(d),
        Err(_) => None,
    }
}

/// Calls `Duration::as_secs`: the whole seconds of `d`. Nothing is
/// promised, `Duration` being opaque here.
#[verifier::external_body]
fn whole_seconds(d: std::time::Duration) -> u64 {
    d.as_secs()
}

/// The `created_at` value for a clock reading of `secs` whole seconds since
/// the Unix epoch (`None`: the clock is before the epoch): the same number,
/// or `None` when there is no reading or it does not fit in an `i64`.
pub fn timestamp_from_seconds(secs: Option<u64>) -> (r: Option<i64>)
    ensures
        match secs {
            Some(n) => if n <= i64::MAX {
                r == Some(n as i64)
            } else {
                r is None
            },
            None => r is None,
        },
{
    match secs {
        Some(n) => {
            if n <= i64::MAX as u64 {
                Some(n as i64)
            } else {
                None
            }
        },
        None => None,
    }
}

/// Unix timestamp in seconds, as stored in every `created_at` column;
/// `None` when the system clock is before the Unix epoch (or beyond what an
/// `i64` holds).
pub fn now_unix() -> (r: Option<i64>)
    ensures
        r matches Some(t) ==> t >= 0,
{
    let secs = match since_epoch(clock_now()) {
        Some(d) => Some(whole_seconds(d)),
        None => None,
    };
    timestamp_from_seconds(secs)
}

// ---------------------------------------------------------------------
// Identifiers

/// Lower-case hexadecimal digit of `d` (0 to 15).
pub open spec fn hex_digit(d: int) -> char {
    if d < 10 {
        ('0' as int + d) as char
    } else {
        ('a' as int + d - 10) as char
    }
}

/// The `i`-th hexadecimal digit (0 to 31, most significant first) of a
/// 128-bit value.
pub open spec fn nibble(b: u128, i: int) -> int {
    ((b as int) / (pow2((4 * (31 - i)) as nat) as int)) % 16
}

/// The hyphenated, lower-case text of a UUID with the 128-bit value `b`:
/// 32 hex digits, most significant first, grouped 8-4-4-4-12.
pub open spec fn uuid_text(b: u128) -> Seq<char> {
    Seq::new(
        36,
        |k: int|
            if k == 8 || k == 13 || k == 18 || k == 23 {
                '-'
            } else {
                let i = if k < 8 {
                    k
                } else if k < 13 {
                    k - 1
                } else if k < 18 {
                    k - 2
                } else if k < 23 {
                    k - 3
                } else {
                    k - 4
                };
                hex_digit(nibble(b, i))
            },
    )
}

/// A version-4 (random) UUID value: version digit 4, RFC variant bits `10`.
pub open spec fn is_v4_uuid(b: u128) -> bool {
    nibble(b, 12) == 4 && nibble(b, 16) / 4 == 2
}

/// `s` is the text of some version-4 UUID.
pub open spec fn is_v4_uuid_text(s: Seq<char>) -> bool {
    exists|b: u128| is_v4_uuid(b) && s == uuid_text(b)
}

/// Calls `uuid::Uuid::new_v4` and renders it with `to_string`. The value
/// is random: promised is only that it is some version-4 UUID, written in
/// the crate's hyphenated lower-case form (its `Display`). The call panics
/// if the operating system's random source fails; that is not stated.
#[verifier::external_body]
fn new_v4_id() -> (r: String)
    ensures
        is_v4_uuid_text(r@),
{
    uuid::Uuid::new_v4().to_string()
}

fn to_owned_opt(o: Option<&str>) -> (r: Option<String>)
    ensures
        opt_view(r) == opt_str_view(o),
{
    match o {
        Some(s) => Some(s.to_owned()),
        None => None,
    }
}

/// The record of a new chat room on `topic` with identifier `id`, created
/// at clock reading `now`: mode "sequential", status "idle"; `None` when
/// there is no clock reading.
pub fn session_at(topic: String, id: String, now: Option<i64>) -> (r: Option<Session>)
    ensures
        now is None ==> r is None,
        now matches Some(t) ==> (r matches Some(s) && s.id == id && s.topic == topic && s.mode@
            == MODE_SEQUENTIAL@ && s.status@ == STATUS_IDLE@ && s.created_at == t),
{
    match now {
        Some(created_at) => Some(
            Session {
                id,
                topic,
                mode: String::from_str(MODE_SEQUENTIAL),
                status: String::from_str(STATUS_IDLE),
                created_at,
            },
        ),
        None => None,
    }
}

/// A new chat room on `topic`: a fresh random id, mode "sequential",
/// status "idle", created now, with an empty roster. `None` only when the
/// clock cannot give the current time.
pub fn new_session(topic: String) -> (r: Option<Session>)
    ensures
        r matches Some(s) ==> {
            &&& s.topic == topic
            &&& s.mode@ == MODE_SEQUENTIAL@
            &&& s.status@ == STATUS_IDLE@
            &&& is_v4_uuid_text(s.id@)
            &&& s.created_at >= 0
        },
{
    session_at(topic, new_v4_id(), now_unix())
}

/// The row of a new message with identifier `id`, written at clock reading
/// `now`, around the given fields; `None` when there is no clock reading.
pub fn message_at(
    session_id: &str,
    agent_id: Option<&str>,
    round_number: i64,
    content: &str,
    refers_to: Option<&str>,
    id: String,
    now: Option<i64>,
) -> (r: Option<Message>)
    ensures
        now is None ==> r is None,
        now matches Some(t) ==> (r matches Some(m) && m.id == id && m.session_id@ == session_id@
            && opt_view(m.agent_id) == opt_str_view(agent_id) && m.round_number == round_number
            && m.content@ == content@ && opt_view(m.refers_to) == opt_str_view(refers_to)
            && m.created_at == t),
{
    match now {
        Some(created_at) => Some(
            Message {
                id,
                session_id: session_id.to_owned(),
                agent_id: to_owned_opt(agent_id),
                round_number,
                content: content.to_owned(),
                refers_to: to_owned_opt(refers_to),
                created_at,
            },
        ),
        None => None,
    }
}

/// A new message row: a fresh random id and the current time around the
/// given fields. `None` only when the clock cannot give the current time.
pub fn new_message(
    session_id: &str,
    agent_id: Option<&str>,
    round_number: i64,
    content: &str,
    refers_to: Option<&str>,
) -> (r: Option<Message>)
    ensures
        r matches Some(m) ==> {
            &&& m.session_id@ == session_id@
            &&& opt_view(m.agent_id) == opt_str_view(agent_id)
            &&& m.round_number == round_number
            &&& m.content@ == content@
            &&& opt_view(m.refers_to) == opt_str_view(refers_to)
            &&& is_v4_uuid_text(m.id@)
            &&& m.created_at >= 0
        },
{
    message_at(session_id, agent_id, round_number, content, refers_to, new_v4_id(), now_unix())
}


// ---------------------------------------------------------------------
// Rules of the session commands

/// The error reported when no session has the given id.
pub open spec fn session_not_found_text(session_id: Seq<char>) -> Seq<char> {
    "session "@ + session_id + " not found"@
}

/// The error reported when no session has the given id.
pub fn session_not_found(session_id: &str) -> (r: String)
    ensures
        r@ == session_not_found_text(session_id@),
{
    let mut s = String::from_str("session ");
    s.append(session_id);
    s.append(" not found");
    s
}

/// A session's mode can only be switched to "sequential" or "mention".
pub fn validate_mode(mode: &str) -> (r: Result<(), String>)
    ensures
        r is Ok <==> (mode@ == MODE_SEQUENTIAL@ || mode@ == MODE_MENTION@),
        r matches Err(e) ==> e@ == "invalid mode \""@ + mode@
            + "\" (expected \"sequential\" or \"mention\")"@,
{
    if crate::text::same_text(mode, MODE_SEQUENTIAL) || crate::text::same_text(mode, MODE_MENTION) {
        Ok(())
    } else {
        let mut s = String::from_str("invalid mode \"");
        s.append(mode);
        s.append("\" (expected \"sequential\" or \"mention\")");
        Err(s)
    }
}

/// Whether a session with the given stored status (`None`: no such
/// session) may be deleted. A running session is refused so an in-flight
/// round can't be left inserting messages for a session that no longer
/// exists.
pub fn check_deletable(session_id: &str, status: Option<&str>) -> (r: Result<(), String>)
    ensures
        match status {
            None => r matches Err(e) && e@ == session_not_found_text(session_id@),
            Some(st) => if st@ == STATUS_RUNNING@ {
                r matches Err(e) && e@ == "session is running, cannot delete it right now"@
            } else {
                r is Ok
            },
        },
{
    match status {
        None => Err(session_not_found(session_id)),
        Some(st) => {
            if crate::text::same_text(st, STATUS_RUNNING) {
                Err(String::from_str("session is running, cannot delete it right now"))
            } else {
                Ok(())
            }
        },
    }
}

/// Claiming a session for a round is a single check-and-set
/// (`status = 'running' WHERE status != 'running'`); it failed when it
/// changed no row, i.e. the session is already running a round (or does
/// not exist).
pub fn claim_result(rows_affected: u64) -> (r: Result<(), String>)
    ensures
        r is Ok <==> rows_affected > 0,
        r matches Err(e) ==> e@ == "session is already running a round"@,
{
    if rows_affected == 0 {
        Err(String::from_str("session is already running a round"))
    } else {
        Ok(())
    }
}

/// The position an agent joins a roster at: one past the highest position
/// in use (`highest`), or 0 for an empty roster, so it speaks last.
/// `None` when that position does not fit in an `i64`.
pub fn next_position(highest: Option<i64>) -> (r: Option<i64>)
    ensures
        match highest {
            None => r == Some(0i64),
            Some(h) => if h < i64::MAX {
                r == Some((h + 1) as i64)
            } else {
                r is None
            },
        },
{
    match highest {
        None => Some(0),
        Some(h) => {
            if h < i64::MAX {
                Some(h + 1)
            } else {
                None
            }
        },
    }
}

/// The number of a new round: one past the highest round number among the
/// session's messages (`highest`), or 1 when it has none. `None` when that
/// number does not fit in an `i64`.
pub fn next_round_number(highest: Option<i64>) -> (r: Option<i64>)
    ensures
        match highest {
            None => r == Some(1i64),
            Some(h) => if h < i64::MAX {
                r == Some((h + 1) as i64)
            } else {
                r is None
            },
        },
{
    match highest {
        None => Some(1),
        Some(h) => {
            if h < i64::MAX {
                Some(h + 1)
            } else {
                None
            }
        },
    }
}

/// The roster positions a reorder writes: each agent id gets its index in
/// the complete new speaking order.
pub fn reorder_positions(ordered_agent_ids: &Vec<String>) -> (r: Vec<(i64, String)>)
    requires
        ordered_agent_ids@.len() <= i64::MAX,
    ensures
        r@.len() == ordered_agent_ids@.len(),
        forall|k: int|
            0 <= k < r@.len() ==> (#[trigger] r@[k]).0 == k && r@[k].1 == ordered_agent_ids@[k],
{
    let mut r: Vec<(i64, String)> = Vec::new();
    let mut i: usize = 0;
    while i < ordered_agent_ids.len()
        invariant
            i <= ordered_agent_ids@.len() <= i64::MAX,
            r@.len() == i,
            forall|k: int|
                0 <= k < i ==> (#[trigger] r@[k]).0 == k && r@[k].1 == ordered_agent_ids@[k],
        decreases ordered_agent_ids@.len() - i,
    {
        r.push((i as i64, ordered_agent_ids[i].clone()));
        i = i + 1;
    }
    r
}

} // verus!
