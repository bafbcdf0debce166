use std::time::{SystemTime, UNIX_EPOCH};

use caffeine::{
    end_protected_session, expire_session, format_clock, get_session_path, inhibit_args,
    init_protected_session, init_session, minutes_to_seconds, plan_start, preset_minutes,
    session_status, ArgCommand, CaffeineSession, SessionError, SessionView,
};

fn session(pid: &str, start: u64, length: Option<u64>) -> CaffeineSession {
    CaffeineSession { proccess_id: pid.to_string(), start_time: start, session_length: length }
}

#[test]
fn session_path_is_fixed() {
    assert_eq!(get_session_path(), "/tmp/caffeine-session.json");
}

#[test]
fn clock_text_pads_each_field() {
    assert_eq!(format_clock(0), "00h 00m 00s");
    assert_eq!(format_clock(3661), "01h 01m 01s");
    assert_eq!(format_clock(300), "00h 05m 00s");
    assert_eq!(format_clock(86399), "23h 59m 59s");
}

#[test]
fn clock_text_counts_hours_beyond_a_day() {
    assert_eq!(format_clock(86400 + 5), "24h 00m 05s");
    assert_eq!(format_clock(90000), "25h 00m 00s");
    assert_eq!(format_clock(36000), "10h 00m 00s");
    assert_eq!(format_clock(360000 + 61), "100h 01m 01s");
    assert_eq!(format_clock(u64::MAX), "5124095576030431h 00m 15s");
}

#[test]
fn rendered_time_keeps_its_order_across_a_day() {
    let s = session("1", 0, Some(86410));
    assert_eq!(s.get_elapsed_time_at(86399), "23h 59m 59s");
    assert_eq!(s.get_elapsed_time_at(86401), "24h 00m 01s");
    assert_eq!(s.get_remaining_time_at(5).unwrap(), "24h 00m 05s");
    assert_eq!(s.get_remaining_time_at(11).unwrap(), "23h 59m 59s");
    assert_eq!(s.get_session_length().unwrap(), "24h 00m 10s");
}

#[test]
fn inhibit_args_timed() {
    assert_eq!(inhibit_args(Some(300)), vec!["--what=idle", "sleep", "300"]);
    assert_eq!(inhibit_args(Some(0)), vec!["--what=idle", "sleep", "0"]);
}

#[test]
fn inhibit_args_unbounded() {
    assert_eq!(inhibit_args(None), vec!["--what=idle", "sleep", "infinity"]);
}

#[test]
fn init_session_records_process_and_times() {
    let s = init_session(4321, 1000, Some(600));
    assert_eq!(s.proccess_id, "4321");
    assert_eq!(s.start_time, 1000);
    assert_eq!(s.session_length, Some(600));
    let u = init_session(0, 7, None);
    assert_eq!(u.proccess_id, "0");
    assert_eq!(u.session_length, None);
}

#[test]
fn timed_start_then_status_remaining_within_length() {
    let mut store = None;
    assert!(plan_start(&store, Some(120)).is_ok());
    let s = init_protected_session(&mut store, init_session(10, 5000, Some(120))).unwrap();
    assert_eq!(s.start_time, 5000);
    let view = session_status(&store, 5000).unwrap();
    assert_eq!(view, SessionView { elapsed: 0, remaining: Some(120), total: Some(120) });
    let later = session_status(&store, 5030).unwrap();
    assert_eq!(later.remaining, Some(90));
    assert!(later.remaining.unwrap() <= 120);
}

#[test]
fn zero_length_session_has_nothing_left() {
    let mut store = None;
    init_protected_session(&mut store, init_session(10, 5000, Some(0))).unwrap();
    assert_eq!(session_status(&store, 5000).unwrap().remaining, Some(0));
}

#[test]
fn unbounded_start_has_no_end() {
    let mut store = None;
    init_protected_session(&mut store, init_session(11, 100, None)).unwrap();
    let view = session_status(&store, 500).unwrap();
    assert_eq!(view, SessionView { elapsed: 400, remaining: None, total: None });
    assert!(store.as_ref().unwrap().get_remaining_time_at(500).is_none());
    assert!(store.as_ref().unwrap().get_session_length().is_none());
}

#[test]
fn start_conflicts_with_existing_session() {
    let mut store = Some(session("99", 10, None));
    assert_eq!(plan_start(&store, Some(60)).unwrap_err(), SessionError::ConflictingSession);
    assert_eq!(plan_start(&store, None).unwrap_err(), SessionError::ConflictingSession);
    let r = init_protected_session(&mut store, session("100", 20, Some(5)));
    assert_eq!(r.unwrap_err(), SessionError::ConflictingSession);
    assert_eq!(store.as_ref().unwrap().proccess_id, "99");
    assert_eq!(store.as_ref().unwrap().start_time, 10);
}

#[test]
fn stop_without_session() {
    let mut store: Option<CaffeineSession> = None;
    assert_eq!(end_protected_session(&mut store).unwrap_err(), SessionError::NoActiveSession);
    assert!(store.is_none());
}

#[test]
fn start_then_stop_leaves_no_session() {
    let mut store = None;
    init_protected_session(&mut store, init_session(77, 50, Some(60))).unwrap();
    let released = end_protected_session(&mut store).unwrap();
    assert_eq!(released.proccess_id, "77");
    assert!(store.is_none());
    assert_eq!(session_status(&store, 60), None);
}

#[test]
fn stop_twice() {
    let mut store = Some(session("5", 1, None));
    assert!(end_protected_session(&mut store).is_ok());
    assert_eq!(end_protected_session(&mut store).unwrap_err(), SessionError::NoActiveSession);
}

#[test]
fn elapsed_follows_the_clock() {
    let s = session("1", 1000, None);
    let a = s.elapsed_seconds(1010);
    let b = s.elapsed_seconds(1017);
    assert_eq!(b - a, 7);
    assert_eq!(s.get_elapsed_time_at(1000 + 3725), "01h 02m 05s");
}

#[test]
fn clock_before_start_counts_no_time() {
    let s = session("1", 1000, Some(30));
    assert_eq!(s.elapsed_seconds(900), 0);
    assert_eq!(s.remaining_seconds(900), Some(30));
}

#[test]
fn remaining_never_negative() {
    let s = session("1", 1000, Some(30));
    assert_eq!(s.remaining_seconds(1029), Some(1));
    assert_eq!(s.remaining_seconds(1030), Some(0));
    assert_eq!(s.remaining_seconds(5000), Some(0));
    assert_eq!(s.get_remaining_time_at(5000).unwrap(), "00h 00m 00s");
    assert_eq!(s.get_session_length().unwrap(), "00h 00m 30s");
}

#[test]
fn remaining_near_the_top_of_the_range() {
    let s = session("1", u64::MAX - 5, Some(u64::MAX));
    assert_eq!(s.remaining_seconds(u64::MAX), Some(u64::MAX - 5));
}

#[test]
fn expiry_clears_the_session_it_belongs_to() {
    let mut store = None;
    let s = init_protected_session(&mut store, init_session(42, 0, Some(2))).unwrap();
    assert!(expire_session(&mut store, &s.proccess_id));
    assert!(store.is_none());
    assert_eq!(session_status(&store, 3), None);
}

#[test]
fn expiry_spares_a_newer_session() {
    let mut store = Some(session("43", 10, None));
    assert!(!expire_session(&mut store, &"42".to_string()));
    assert_eq!(store.as_ref().unwrap().proccess_id, "43");
    let mut empty: Option<CaffeineSession> = None;
    assert!(!expire_session(&mut empty, &"42".to_string()));
    assert!(empty.is_none());
}

#[test]
fn empty_store_behaves_as_no_session() {
    let store: Option<CaffeineSession> = None;
    assert_eq!(session_status(&store, 123), None);
    assert!(plan_start(&store, None).is_ok());
}

#[test]
fn error_messages() {
    assert_eq!(SessionError::ConflictingSession.message(), "A session already exists");
    assert_eq!(SessionError::NoActiveSession.message(), "Couldn't find an active session");
}

#[test]
fn minutes_convert_to_seconds() {
    assert_eq!(minutes_to_seconds(5), Some(300));
    assert_eq!(minutes_to_seconds(0), Some(0));
    assert_eq!(minutes_to_seconds(u64::MAX / 60), Some((u64::MAX / 60) * 60));
    assert_eq!(minutes_to_seconds(u64::MAX / 60 + 1), None);
}

#[test]
fn commands_request_starts() {
    assert_eq!(ArgCommand::Enable.start_request(), Some(None));
    assert_eq!(ArgCommand::Timed { minutes: 10 }.start_request(), Some(Some(600)));
    assert_eq!(ArgCommand::Timed { minutes: u64::MAX }.start_request(), None);
    assert_eq!(ArgCommand::Disable.start_request(), None);
    assert_eq!(ArgCommand::Status.start_request(), None);
}

#[test]
fn menu_presets() {
    assert_eq!(preset_minutes(), vec![5, 10, 15, 20, 30, 60, 120]);
}

#[test]
fn elapsed_time_reads_the_clock() {
    let s = session("1", 0, Some(10));
    let before = SystemTime::now().duration_since(UNIX_EPOCH).unwrap().as_secs();
    let shown = s.get_elapsed_time();
    let after = SystemTime::now().duration_since(UNIX_EPOCH).unwrap().as_secs();
    assert!(shown == format_clock(before) || shown == format_clock(after));
    assert_eq!(s.get_remaining_time().unwrap(), "00h 00m 00s");
    let future = session("1", u64::MAX, Some(10));
    assert_eq!(future.get_elapsed_time(), "00h 00m 00s");
    assert_eq!(future.get_remaining_time().unwrap(), "00h 00m 10s");
}
