use vstd::prelude::*;

use crate::manager::{
    after_expiry, after_start, start_plan_of, start_result, status_of, stop_result,
};
use crate::session::{new_session, SessionError, SessionRecord};

verus! {

/// A timed session of `d` seconds, started on an empty store, reports at any
/// later query a remaining time of at most `d` seconds (and never below zero,
/// being unsigned), with `d` as its total.
pub proof fn lemma_timed_start_remaining_bounded(process_id: u32, start: u64, d: u64, now: u64)
    ensures
        ({
            let store = after_start(None, new_session(process_id, start, Some(d)));
            &&& status_of(store, now) is Some
            &&& status_of(store, now)->Some_0.remaining is Some
            &&& status_of(store, now)->Some_0.remaining->Some_0 <= d
            &&& status_of(store, now)->Some_0.total == Some(d)
        }),
{
}

/// An unbounded session, started on an empty store, reports neither a
/// remaining time nor a total.
pub proof fn lemma_unbounded_start_has_no_end(process_id: u32, start: u64, now: u64)
    ensures
        ({
            let store = after_start(None, new_session(process_id, start, None));
            &&& status_of(store, now) is Some
            &&& status_of(store, now)->Some_0.remaining is None
            &&& status_of(store, now)->Some_0.total is None
        }),
{
}

/// While a session is recorded, a start is refused with `ConflictingSession`
/// before any inhibitor is asked for, and recording another acquired session
/// is refused too and leaves the store as it was.
pub proof fn lemma_start_conflicts(
    store: Option<SessionRecord>,
    seconds: Option<u64>,
    other: SessionRecord,
)
    requires
        store is Some,
    ensures
        start_plan_of(store, seconds) == Err::<Seq<Seq<char>>, SessionError>(
            SessionError::ConflictingSession,
        ),
        start_result(store, other) == Err::<SessionRecord, SessionError>(
            SessionError::ConflictingSession,
        ),
        after_start(store, other) == store,
{
}

/// With no session recorded, a stop returns `NoActiveSession` and so names
/// no inhibitor to release.
pub proof fn lemma_stop_without_session()
    ensures
        stop_result(None) == Err::<SessionRecord, SessionError>(SessionError::NoActiveSession),
{
}

/// A session started on an empty store and then stopped: the stop releases
/// that very session's inhibitor, and a status query on the emptied store
/// reports no session.
pub proof fn lemma_start_then_stop(s: SessionRecord, now: u64)
    ensures
        stop_result(after_start(None, s)) == Ok::<SessionRecord, SessionError>(s),
        status_of(None, now) is None,
{
}

/// Two stops in a row on an active session: the first succeeds, and the
/// second, on the empty store that every stop leaves, returns
/// `NoActiveSession`.
pub proof fn lemma_stop_twice(store: Option<SessionRecord>)
    requires
        store is Some,
    ensures
        stop_result(store) is Ok,
        stop_result(None) == Err::<SessionRecord, SessionError>(
            SessionError::NoActiveSession,
        ),
{
}

/// Two status queries of one session, `t` seconds apart and both at or
/// after its start, report elapsed times that differ by exactly `t`.
pub proof fn lemma_elapsed_advances_with_clock(s: SessionRecord, now: u64, t: u64)
    requires
        now >= s.start_time,
        now + t <= u64::MAX,
    ensures
        status_of(Some(s), (now + t) as u64)->Some_0.elapsed == status_of(Some(s), now)->Some_0.elapsed
            + t,
{
}

/// A timed session started on an empty store and left alone: once it has
/// run out, its expiry finds it recorded and empties the store, after which
/// a status query reports no session; and at any time at or after its end,
/// a status query reports no time left.
pub proof fn lemma_expiry_clears(process_id: u32, start: u64, d: u64, now: u64)
    ensures
        ({
            let s = new_session(process_id, start, Some(d));
            let store = after_start(None, s);
            &&& after_expiry(store, s.handle) == None::<SessionRecord>
            &&& status_of(after_expiry(store, s.handle), now) is None
            &&& now >= start + d ==> status_of(store, now)->Some_0.remaining == Some(0u64)
        }),
{
}

/// The expiry of a session that was stopped, or replaced by a session of
/// another inhibitor, leaves the store as it is.
pub proof fn lemma_expiry_spares_other_sessions(
    store: Option<SessionRecord>,
    handle: Seq<char>,
)
    requires
        store is None || store->Some_0.handle != handle,
    ensures
        after_expiry(store, handle) == store,
{
}

/// An empty store, which is also what a missing or unreadable state file
/// reads as, behaves as no session: a status query reports none and a start
/// goes ahead.
pub proof fn lemma_empty_store_is_no_session(seconds: Option<u64>, s: SessionRecord, now: u64)
    ensures
        status_of(None, now) is None,
        start_plan_of(None, seconds) is Ok,
        start_result(None, s) == Ok::<SessionRecord, SessionError>(s),
{
}

} // verus!
