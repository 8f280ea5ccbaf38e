use freelance_invoice::error::AppError;
use freelance_invoice::models::{ActiveTimer, CreateManualTimeEntry};
use freelance_invoice::timer::{
    create_manual_time_entry, create_time_entry_from_timer, get_timer_state, manual_time_entry,
    pause_timer, pause_timer_at, resume_timer, resume_timer_at, start_timer, start_timer_at,
    stop_timer, stop_timer_at, time_entry_from_timer, timer_state_at,
};

fn now_secs() -> i64 {
    chrono::Utc::now().timestamp()
}

#[test]
fn test_start_and_stop_timer() {
    let mut slot: Option<ActiveTimer> = None;
    let project_id = "proj".to_string();

    start_timer(&mut slot, project_id.clone(), Some("Working on feature".to_string())).unwrap();

    let state = get_timer_state(&slot, Some("Test Project".to_string()));
    assert!(state.is_running);
    assert!(!state.is_paused);
    assert_eq!(state.project_name, Some("Test Project".to_string()));

    let entry = stop_timer(&mut slot).unwrap();
    assert_eq!(entry.project_id, project_id);
    assert!(!entry.is_manual);

    let state = get_timer_state(&slot, None);
    assert!(!state.is_running);
}

#[test]
fn test_pause_and_resume_timer() {
    let mut slot: Option<ActiveTimer> = None;
    start_timer(&mut slot, "proj".to_string(), None).unwrap();
    let paused = pause_timer(&mut slot).unwrap();
    assert!(paused.is_paused);

    let state = get_timer_state(&slot, None);
    assert!(state.is_paused);

    let resumed = resume_timer(&mut slot).unwrap();
    assert!(!resumed.is_paused);
}

#[test]
fn test_cannot_start_two_timers() {
    let mut slot: Option<ActiveTimer> = None;
    start_timer(&mut slot, "proj".to_string(), None).unwrap();
    let result = start_timer(&mut slot, "proj".to_string(), None);
    assert!(result.is_err());
    assert_eq!(result, Err(AppError::TimerConflict));
}

#[test]
fn test_manual_time_entry() {
    let end = now_secs();
    let start = end - 2 * 3600;
    let entry = create_manual_time_entry(CreateManualTimeEntry {
        project_id: "proj".to_string(),
        description: Some("Manual work".to_string()),
        start_time: start,
        end_time: end,
        is_billable: true,
    })
    .unwrap();

    assert!(entry.is_manual);
    assert!(entry.duration_secs > 0);
    assert_eq!(entry.duration_secs, 2 * 3600);
}

#[test]
fn test_manual_entry_invalid_times() {
    let now = now_secs();
    let result = create_manual_time_entry(CreateManualTimeEntry {
        project_id: "proj".to_string(),
        description: None,
        start_time: now,
        end_time: now - 3600,
        is_billable: true,
    });
    assert!(result.is_err());
}

#[test]
fn paused_gap_is_not_counted() {
    let t0: i64 = 1_700_000_000;
    let mut slot: Option<ActiveTimer> = None;
    start_timer_at(&mut slot, "proj".to_string(), None, t0).unwrap();
    pause_timer_at(&mut slot, t0 + 5).unwrap();
    resume_timer_at(&mut slot, t0 + 20).unwrap();
    let entry = stop_timer_at(&mut slot, t0 + 27, "e1".to_string()).unwrap();
    assert_eq!(entry.duration_secs, 12);
    assert_eq!(entry.start_time, t0);
    assert!(entry.end_time - entry.start_time > entry.duration_secs);
    assert_eq!(entry.end_time, t0 + 27);
    assert_eq!(entry.id, "e1");
    assert!(entry.is_billable);
    assert!(slot.is_none());
}

#[test]
fn pause_banks_running_interval() {
    let mut slot: Option<ActiveTimer> = None;
    start_timer_at(&mut slot, "proj".to_string(), Some("d".to_string()), 100).unwrap();
    let p = pause_timer_at(&mut slot, 160).unwrap();
    assert_eq!(p.accumulated_secs, 60);
    assert_eq!(p.start_time, 100);
    assert!(p.is_paused);
    assert_eq!(slot, Some(p.clone()));
    let r = resume_timer_at(&mut slot, 500).unwrap();
    assert_eq!(r.accumulated_secs, 60);
    assert_eq!(r.start_time, 500);
    assert_eq!(r.session_start, 100);
    assert_eq!(timer_state_at(&slot, None, 510).elapsed_secs, 70);
}

#[test]
fn second_start_keeps_first_timer() {
    let mut slot: Option<ActiveTimer> = None;
    let first = start_timer_at(&mut slot, "a".to_string(), None, 10).unwrap();
    pause_timer_at(&mut slot, 15).unwrap();
    let again = start_timer_at(&mut slot, "b".to_string(), None, 20);
    assert_eq!(again, Err(AppError::TimerConflict));
    assert_eq!(slot.as_ref().unwrap().project_id, first.project_id);
}

#[test]
fn pause_twice_is_already_paused() {
    let mut slot: Option<ActiveTimer> = None;
    start_timer_at(&mut slot, "p".to_string(), None, 0).unwrap();
    pause_timer_at(&mut slot, 3).unwrap();
    let before = slot.clone();
    assert_eq!(pause_timer_at(&mut slot, 9), Err(AppError::AlreadyPaused));
    assert_eq!(slot, before);
}

#[test]
fn resume_running_is_not_paused() {
    let mut slot: Option<ActiveTimer> = None;
    start_timer_at(&mut slot, "p".to_string(), None, 0).unwrap();
    assert_eq!(resume_timer_at(&mut slot, 4), Err(AppError::NotPaused));
}

#[test]
fn operations_without_timer_fail() {
    let mut slot: Option<ActiveTimer> = None;
    assert_eq!(pause_timer_at(&mut slot, 1), Err(AppError::NoActiveTimer));
    assert_eq!(resume_timer_at(&mut slot, 1), Err(AppError::NoActiveTimer));
    assert_eq!(stop_timer_at(&mut slot, 1, "x".to_string()), Err(AppError::NoActiveTimer));
    assert!(slot.is_none());
}

#[test]
fn stop_while_paused_uses_banked_seconds() {
    let mut slot: Option<ActiveTimer> = None;
    start_timer_at(&mut slot, "p".to_string(), None, 1000).unwrap();
    pause_timer_at(&mut slot, 1042).unwrap();
    let entry = stop_timer_at(&mut slot, 5000, "e".to_string()).unwrap();
    assert_eq!(entry.duration_secs, 42);
    assert_eq!(entry.start_time, 1000);
    assert_eq!(entry.end_time, 5000);
}

#[test]
fn elapsed_saturates_at_bounds() {
    let t = ActiveTimer {
        project_id: "p".to_string(),
        description: None,
        session_start: i64::MIN,
        start_time: i64::MIN,
        accumulated_secs: i64::MAX,
        is_paused: false,
    };
    assert_eq!(t.elapsed_secs(i64::MAX), i64::MAX);
}

#[test]
fn manual_entry_of_one_hour() {
    let entry = manual_time_entry(
        CreateManualTimeEntry {
            project_id: "p".to_string(),
            description: None,
            start_time: 7200,
            end_time: 7200 + 3600,
            is_billable: false,
        },
        "m1".to_string(),
        9,
    )
    .unwrap();
    assert_eq!(entry.duration_secs, 3600);
    assert!(entry.is_manual);
    assert!(!entry.is_billable);
    assert_eq!(entry.created_at, 9);
}

#[test]
fn manual_entry_of_zero_length_is_invalid() {
    let r = manual_time_entry(
        CreateManualTimeEntry {
            project_id: "p".to_string(),
            description: None,
            start_time: 50,
            end_time: 50,
            is_billable: true,
        },
        "m".to_string(),
        0,
    );
    assert_eq!(r, Err(AppError::InvalidRange));
}

#[test]
fn empty_timer_state() {
    let state = timer_state_at(&None, Some("ignored".to_string()), 77);
    assert!(!state.is_running);
    assert!(!state.is_paused);
    assert_eq!(state.project_id, None);
    assert_eq!(state.project_name, None);
    assert_eq!(state.elapsed_secs, 0);
    assert_eq!(state.start_time, None);
}

#[test]
fn clock_reading_is_current() {
    let before = now_secs();
    let mut slot: Option<ActiveTimer> = None;
    let t = start_timer(&mut slot, "p".to_string(), None).unwrap();
    let after = now_secs();
    assert!(before <= t.start_time && t.start_time <= after);
}

#[test]
fn entries_get_fresh_identifiers() {
    let a = create_time_entry_from_timer("p".to_string(), None, 1, 2, 1);
    let b = create_time_entry_from_timer("p".to_string(), None, 1, 2, 1);
    assert!(!a.id.is_empty());
    assert_ne!(a.id, b.id);
    assert!(a.is_billable);
    assert!(!a.is_manual);
    let c = time_entry_from_timer("id".to_string(), "p".to_string(), None, 1, 2, 1, 3);
    assert_eq!(c.id, "id");
    assert_eq!(c.created_at, 3);
    assert_eq!(c.invoice_id, None);
}
