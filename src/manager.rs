use vstd::prelude::*;

use crate::session::{
    inhibit_args, inhibit_args_of, record_of, texts_of, CaffeineSession, SessionError,
    SessionRecord, SessionView,
};

verus! {

// The session store is modelled by what it holds: `Some` record, or `None`
// where no session is active. A state file that is missing or cannot be
// read as a record stands for `None`.

/// What asking to start a session yields: the inhibitor arguments to run,
/// or a refusal where a session is already recorded.
pub open spec fn start_plan_of(store: Option<SessionRecord>, seconds: Option<u64>) -> Result<
    Seq<Seq<char>>,
    SessionError,
> {
    match store {
        Some(_) => Err(SessionError::ConflictingSession),
        None => Ok(inhibit_args_of(seconds)),
    }
}

/// What the store holds after recording the acquired session `s`.
pub open spec fn after_start(store: Option<SessionRecord>, s: SessionRecord) -> Option<SessionRecord> {
    match store {
        Some(_) => store,
        None => Some(s),
    }
}

/// What recording the acquired session `s` returns.
pub open spec fn start_result(store: Option<SessionRecord>, s: SessionRecord) -> Result<
    SessionRecord,
    SessionError,
> {
    match store {
        Some(_) => Err(SessionError::ConflictingSession),
        None => Ok(s),
    }
}

/// What a stop returns: the session whose inhibitor is to be released, or
/// `NoActiveSession` where there is none (and nothing is released).
pub open spec fn stop_result(store: Option<SessionRecord>) -> Result<SessionRecord, SessionError> {
    match store {
        Some(s) => Ok(s),
        None => Err(SessionError::NoActiveSession),
    }
}

/// What a status query at `now` reports.
pub open spec fn status_of(store: Option<SessionRecord>, now: u64) -> Option<SessionView> {
    match store {
        Some(s) => Some(s.view_at(now)),
        None => None,
    }
}

/// Whether the expiry of the session with inhibitor `handle` finds that very
/// session still recorded.
pub open spec fn expiry_matches(store: Option<SessionRecord>, handle: Seq<char>) -> bool {
    match store {
        Some(s) => s.handle == handle,
        None => false,
    }
}

/// What the store holds once the session with inhibitor `handle` has run out:
/// nothing if that session is still the one recorded, else what it held.
pub open spec fn after_expiry(store: Option<SessionRecord>, handle: Seq<char>) -> Option<
    SessionRecord,
> {
    if expiry_matches(store, handle) {
        None
    } else {
        store
    }
}

/// The first step of starting a session: refuses where one is recorded,
/// else hands back the arguments of the inhibitor command to run.
pub fn plan_start(store: &Option<CaffeineSession>, seconds: Option<u64>) -> (r: Result<
    Vec<String>,
    SessionError,
>)
    ensures
        store is Some <==> r is Err,
        match start_plan_of(record_of(*store), seconds) {
            Ok(args) => r is Ok && texts_of(r->Ok_0@) == args,
            Err(e) => r == Err::<Vec<String>, SessionError>(e),
        },
{
    match store {
        Some(_) => Err(SessionError::ConflictingSession),
        None => Ok(inhibit_args(seconds)),
    }
}

/// Makes a copy of a session record.
fn copy_session(s: &CaffeineSession) -> (r: CaffeineSession)
    ensures
        r@ == s@,
{
    CaffeineSession {
        proccess_id: s.proccess_id.clone(),
        start_time: s.start_time,
        session_length: s.session_length,
    }
}

/// The last step of starting a session: records the acquired `session`,
/// unless one is recorded already, and returns it.
pub fn init_protected_session(store: &mut Option<CaffeineSession>, session: CaffeineSession) -> (r:
    Result<CaffeineSession, SessionError>)
    ensures
        record_of(*final(store)) == after_start(record_of(*old(store)), session@),
        match start_result(record_of(*old(store)), session@) {
            Ok(s) => r is Ok && r->Ok_0@ == s,
            Err(e) => r == Err::<CaffeineSession, SessionError>(e),
        },
{
    if store.is_some() {
        return Err(SessionError::ConflictingSession);
    }
    let kept = copy_session(&session);
    *store = Some(kept);
    Ok(session)
}

/// Stops the recorded session: empties the store and returns the session
/// whose inhibitor is to be released, or `NoActiveSession` where there is
/// none.
pub fn end_protected_session(store: &mut Option<CaffeineSession>) -> (r: Result<
    CaffeineSession,
    SessionError,
>)
    ensures
        *final(store) is None,
        match stop_result(record_of(*old(store))) {
            Ok(s) => r is Ok && r->Ok_0@ == s,
            Err(e) => r == Err::<CaffeineSession, SessionError>(e),
        },
{
    match store.take() {
        Some(s) => Ok(s),
        None => Err(SessionError::NoActiveSession),
    }
}

/// Reports on the recorded session at `now`; `None` where none is active.
pub fn session_status(store: &Option<CaffeineSession>, now: u64) -> (r: Option<SessionView>)
    ensures
        r == status_of(record_of(*store), now),
{
    match store {
        Some(s) => Some(s.view_at(now)),
        None => None,
    }
}

/// Ends the timed session with inhibitor `handle` once its time has run out:
/// empties the store and returns `true` only if that session is still the
/// one recorded (a stop, or a newer session, leaves nothing to do).
pub fn expire_session(store: &mut Option<CaffeineSession>, handle: &String) -> (r: bool)
    ensures
        r == expiry_matches(record_of(*old(store)), handle@),
        record_of(*final(store)) == after_expiry(record_of(*old(store)), handle@),
{
    let matches = match store {
        Some(s) => s.proccess_id == *handle,
        None => false,
    };
    if matches {
        *store = None;
    }
    matches
}

} // verus!
