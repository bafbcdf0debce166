use vstd::prelude::*;

verus! {

/// The commands of the command line.
#[derive(Debug, PartialEq, Eq, Structural)]
pub enum ArgCommand {
    /// Start a session with no end.
    Enable,
    /// Start a session of `minutes` minutes.
    Timed { minutes: u64 },
    /// Stop the current session.
    Disable,
    /// Show the current session.
    Status,
}

/// The length in seconds of a session of `minutes` minutes; `None` where it
/// does not fit in a `u64`.
pub fn minutes_to_seconds(minutes: u64) -> (r: Option<u64>)
    ensures
        minutes * 60 <= u64::MAX ==> r == Some((minutes * 60) as u64),
        minutes * 60 > u64::MAX ==> r is None,
{
    minutes.checked_mul(60)
}

impl ArgCommand {
    /// The session length that the command asks to start, in seconds:
    /// `Some(None)` for an unbounded session, `Some(Some(s))` for a timed one,
    /// `None` where it starts nothing or its length does not fit in a `u64`.
    pub fn start_request(&self) -> (r: Option<Option<u64>>)
        ensures
            match *self {
                ArgCommand::Enable => r == Some(None::<u64>),
                ArgCommand::Timed { minutes } => if minutes * 60 <= u64::MAX {
                    r == Some(Some((minutes * 60) as u64))
                } else {
                    r is None
                },
                _ => r is None,
            },
    {
        match self {
            ArgCommand::Enable => Some(None),
            ArgCommand::Timed { minutes } => match minutes_to_seconds(*minutes) {
                Some(s) => Some(Some(s)),
                None => None,
            },
            _ => None,
        }
    }
}

/// The session lengths in minutes that the interactive menu offers.
pub fn preset_minutes() -> (r: Vec<u64>)
    ensures
        r@ == seq![5u64, 10, 15, 20, 30, 60, 120],
{
    let r: Vec<u64> = vec![5, 10, 15, 20, 30, 60, 120];
    assert(r@ =~= seq![5u64, 10, 15, 20, 30, 60, 120]);
    r
}

} // verus!
