use vstd::prelude::*;

use crate::clock::{
    current_time, decimal_of, decimal_text, duration_text_of, format_clock,
};

verus! {

/// The one session record: which inhibitor process holds the machine awake,
/// when it started (seconds since the epoch) and for how many seconds
/// (`None`: until stopped).
#[derive(Debug, Clone)]
pub struct CaffeineSession {
    pub proccess_id: String,
    pub start_time: u64,
    pub session_length: Option<u64>,
}

/// The mathematical model of a session record.
pub struct SessionRecord {
    pub handle: Seq<char>,
    pub start_time: u64,
    pub session_length: Option<u64>,
}

impl View for CaffeineSession {
    type V = SessionRecord;

    open spec fn view(&self) -> SessionRecord {
        SessionRecord {
            handle: self.proccess_id@,
            start_time: self.start_time,
            session_length: self.session_length,
        }
    }
}

/// The model of what the session store holds.
pub open spec fn record_of(store: Option<CaffeineSession>) -> Option<SessionRecord> {
    match store {
        Some(s) => Some(s@),
        None => None,
    }
}

impl SessionRecord {
    /// Seconds elapsed at `now` since the session started; a clock that
    /// stands before the start counts as no time elapsed.
    pub open spec fn elapsed_at(self, now: u64) -> u64 {
        if now >= self.start_time {
            (now - self.start_time) as u64
        } else {
            0
        }
    }

    /// Seconds left at `now` of a timed session, never below zero; `None`
    /// for an unbounded one.
    pub open spec fn remaining_at(self, now: u64) -> Option<u64> {
        match self.session_length {
            Some(d) => Some(
                if self.elapsed_at(now) >= d {
                    0
                } else {
                    (d - self.elapsed_at(now)) as u64
                },
            ),
            None => None,
        }
    }

    /// What a status query at `now` reports of this session.
    pub open spec fn view_at(self, now: u64) -> SessionView {
        SessionView {
            elapsed: self.elapsed_at(now),
            remaining: self.remaining_at(now),
            total: self.session_length,
        }
    }
}

/// Why a lifecycle operation was refused.
#[derive(Debug, PartialEq, Eq, Structural)]
pub enum SessionError {
    /// A session is already recorded.
    ConflictingSession,
    /// No session is recorded.
    NoActiveSession,
}

/// What a status query reports of a recorded session, in whole seconds:
/// the time elapsed since it started and, for a timed session, the time
/// left and the total length.
#[derive(Debug, PartialEq, Eq, Structural)]
pub struct SessionView {
    pub elapsed: u64,
    pub remaining: Option<u64>,
    pub total: Option<u64>,
}

impl SessionError {
    /// The sentence shown to the user for this error.
    pub fn message(&self) -> (r: &'static str)
        ensures
            *self == SessionError::ConflictingSession ==> r@ == "A session already exists"@,
            *self == SessionError::NoActiveSession ==> r@ == "Couldn't find an active session"@,
    {
        match self {
            SessionError::ConflictingSession => {
                proof {
                    reveal_strlit("A session already exists");
                }
                "A session already exists"
            },
            SessionError::NoActiveSession => {
                proof {
                    reveal_strlit("Couldn't find an active session");
                }
                "Couldn't find an active session"
            },
        }
    }
}

/// The record that a session acquired from the inhibitor process `process_id`
/// at `start_time` for `seconds` (`None`: unbounded) holds.
pub open spec fn new_session(process_id: u32, start_time: u64, seconds: Option<u64>) -> SessionRecord {
    SessionRecord {
        handle: decimal_of(process_id as nat),
        start_time,
        session_length: seconds,
    }
}

/// The arguments handed to the inhibitor command: block idling while a
/// `sleep` runs for `seconds`, or forever.
pub open spec fn inhibit_args_of(seconds: Option<u64>) -> Seq<Seq<char>> {
    seq![
        "--what=idle"@,
        "sleep"@,
        match seconds {
            Some(s) => decimal_of(s as nat),
            None => "infinity"@,
        },
    ]
}

/// The views of a sequence of strings.
pub open spec fn texts_of(v: Seq<String>) -> Seq<Seq<char>> {
    v.map_values(|s: String| s@)
}

/// The arguments for the inhibitor command that keeps the machine awake for
/// `seconds`, or until it is killed where `seconds` is `None`.
pub fn inhibit_args(seconds: Option<u64>) -> (r: Vec<String>)
    ensures
        texts_of(r@) == inhibit_args_of(seconds),
{
    let mut r: Vec<String> = Vec::new();
    r.push("--what=idle".to_owned());
    r.push("sleep".to_owned());
    match seconds {
        Some(s) => r.push(decimal_text(s)),
        None => r.push("infinity".to_owned()),
    }
    assert(texts_of(r@) =~= inhibit_args_of(seconds));
    r
}

impl CaffeineSession {
    /// Seconds elapsed at `now` since the session started.
    pub fn elapsed_seconds(&self, now: u64) -> (r: u64)
        ensures
            r == self@.elapsed_at(now),
            now >= self.start_time ==> r == now - self.start_time,
    {
        if now >= self.start_time {
            now - self.start_time
        } else {
            0
        }
    }

    /// Seconds left at `now` of a timed session: the end of the session less
    /// `now`, and zero once it has passed.
    pub fn remaining_seconds(&self, now: u64) -> (r: Option<u64>)
        ensures
            r == self@.remaining_at(now),
            r is Some <==> self.session_length is Some,
            now >= self.start_time && self.session_length is Some ==> r->Some_0 as int == if self.start_time
                + self.session_length->Some_0 >= now {
                self.start_time + self.session_length->Some_0 - now
            } else {
                0int
            },
    {
        match self.session_length {
            Some(d) => {
                let elapsed = self.elapsed_seconds(now);
                if elapsed >= d {
                    Some(0)
                } else {
                    Some(d - elapsed)
                }
            },
            None => None,
        }
    }

    /// What a status query at `now` reports of this session.
    pub fn view_at(&self, now: u64) -> (r: SessionView)
        ensures
            r == self@.view_at(now),
    {
        SessionView {
            elapsed: self.elapsed_seconds(now),
            remaining: self.remaining_seconds(now),
            total: self.session_length,
        }
    }

    /// The elapsed time at `now`, as `HHh MMm SSs`.
    pub fn get_elapsed_time_at(&self, now: u64) -> (r: String)
        ensures
            r@ == duration_text_of(self@.elapsed_at(now) as nat),
    {
        format_clock(self.elapsed_seconds(now))
    }

    /// The elapsed time now, as `HHh MMm SSs`. A clock that stands before
    /// the epoch reads as the session's start.
    pub fn get_elapsed_time(&self) -> (r: String)
        ensures
            exists|now: u64| r@ == duration_text_of(self@.elapsed_at(now) as nat),
    {
        let now = match current_time() {
            Some(n) => n,
            None => self.start_time,
        };
        self.get_elapsed_time_at(now)
    }

    /// The total length of a timed session as `HHh MMm SSs`; `None` for an
    /// unbounded one.
    pub fn get_session_length(&self) -> (r: Option<String>)
        ensures
            match self.session_length {
                Some(d) => r is Some && r->Some_0@ == duration_text_of(d as nat),
                None => r is None,
            },
    {
        match self.session_length {
            Some(d) => Some(format_clock(d)),
            None => None,
        }
    }

    /// The time left at `now` of a timed session as `HHh MMm SSs`; `None`
    /// for an unbounded one.
    pub fn get_remaining_time_at(&self, now: u64) -> (r: Option<String>)
        ensures
            match self@.remaining_at(now) {
                Some(left) => r is Some && r->Some_0@ == duration_text_of(left as nat),
                None => r is None,
            },
    {
        match self.remaining_seconds(now) {
            Some(left) => Some(format_clock(left)),
            None => None,
        }
    }

    /// The time left now of a timed session as `HHh MMm SSs`; `None` for an
    /// unbounded one. A clock that stands before the epoch reads as the
    /// session's start.
    pub fn get_remaining_time(&self) -> (r: Option<String>)
        ensures
            r is Some <==> self.session_length is Some,
            exists|now: u64|
                match #[trigger] self@.remaining_at(now) {
                    Some(left) => r is Some && r->Some_0@ == duration_text_of(left as nat),
                    None => r is None,
                },
    {
        let now = match current_time() {
            Some(n) => n,
            None => self.start_time,
        };
        self.get_remaining_time_at(now)
    }
}

/// Builds the record of a session whose inhibitor process is `process_id`,
/// started at `start_time` for `seconds` (`None`: until stopped).
pub fn init_session(process_id: u32, start_time: u64, seconds: Option<u64>) -> (r: CaffeineSession)
    ensures
        r@ == new_session(process_id, start_time, seconds),
{
    CaffeineSession { proccess_id: decimal_text(process_id as u64), start_time, session_length: seconds }
}

/// Where the session record is kept.
pub fn get_session_path() -> (r: &'static str)
    ensures
        r@ == "/tmp/caffeine-session.json"@,
{
    proof {
        reveal_strlit("/tmp/caffeine-session.json");
    }
    "/tmp/caffeine-session.json"
}

} // verus!
