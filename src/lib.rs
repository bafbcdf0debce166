//! Keeps a machine awake for a bounded or unbounded time, with at most one
//! inhibition session recorded at a time.
//!
//! The library holds the session record, the decisions of the session
//! lifecycle (start, stop, status, expiry) and the time arithmetic behind the
//! status report. Reading and writing the state file and running the
//! inhibitor process are left to the caller, which hands the library plain
//! values.

mod clock;
mod command;
mod lifecycle;
mod manager;
mod session;

pub use clock::{
    decimal_of, digit_of, duration_text_of, format_clock, hours_text_of, minutes_seconds_text_of,
    two_digits,
};
pub use session::{
    get_session_path, inhibit_args, inhibit_args_of, init_session, new_session, record_of, texts_of,
    CaffeineSession, SessionError, SessionRecord, SessionView,
};
pub use command::{minutes_to_seconds, preset_minutes, ArgCommand};
pub use manager::{
    after_expiry, after_start, end_protected_session, expire_session, expiry_matches,
    init_protected_session, plan_start, session_status, start_plan_of, start_result, status_of,
    stop_result,
};
pub use lifecycle::{
    lemma_elapsed_advances_with_clock, lemma_empty_store_is_no_session, lemma_expiry_clears,
    lemma_expiry_spares_other_sessions, lemma_start_conflicts, lemma_start_then_stop,
    lemma_stop_twice, lemma_stop_without_session, lemma_timed_start_remaining_bounded,
    lemma_unbounded_start_has_no_end,
};
