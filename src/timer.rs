use vstd::prelude::*;

use crate::ambient::{current_timestamp, new_record_id};
use crate::error::AppError;
use crate::models::{ActiveTimer, CreateManualTimeEntry, TimeEntry, TimerState};
use crate::text::copy_opt;

verus! {

/// `x`, or the nearest bound of `i64` where `x` lies outside its range.
pub open spec fn saturate(x: int) -> i64 {
    if x < i64::MIN {
        i64::MIN
    } else if x > i64::MAX {
        i64::MAX
    } else {
        x as i64
    }
}

/// Seconds that timer `t` has counted by instant `now`: the banked seconds,
/// plus the current interval while it is running.
pub open spec fn elapsed_at(t: ActiveTimer, now: int) -> int {
    if t.is_paused {
        t.accumulated_secs as int
    } else {
        t.accumulated_secs + (now - t.start_time)
    }
}

/// The stored form of the elapsed time (saturated at the bounds of `i64`).
pub open spec fn elapsed_secs_at(t: ActiveTimer, now: int) -> i64 {
    saturate(elapsed_at(t, now))
}

/// The record that a finished timing session becomes.
pub open spec fn timer_entry(
    id: String,
    project_id: String,
    description: Option<String>,
    start_time: i64,
    end_time: i64,
    duration_secs: i64,
    created_at: i64,
) -> TimeEntry {
    TimeEntry {
        id,
        project_id,
        description,
        start_time,
        end_time,
        duration_secs,
        is_billable: true,
        is_manual: false,
        invoice_id: None,
        created_at,
    }
}

/// The slot after `start`, and what `start` returns.
pub open spec fn start_spec(
    slot: Option<ActiveTimer>,
    project_id: String,
    description: Option<String>,
    now: i64,
) -> (Option<ActiveTimer>, Result<ActiveTimer, AppError>) {
    match slot {
        Some(_) => (slot, Err(AppError::TimerConflict)),
        None => {
            let t = ActiveTimer {
                project_id,
                description,
                session_start: now,
                start_time: now,
                accumulated_secs: 0,
                is_paused: false,
            };
            (Some(t), Ok(t))
        },
    }
}

/// The slot after `pause`, and what `pause` returns.
pub open spec fn pause_spec(slot: Option<ActiveTimer>, now: i64) -> (
    Option<ActiveTimer>,
    Result<ActiveTimer, AppError>,
) {
    match slot {
        None => (slot, Err(AppError::NoActiveTimer)),
        Some(t) => if t.is_paused {
            (slot, Err(AppError::AlreadyPaused))
        } else {
            let p = ActiveTimer {
                accumulated_secs: elapsed_secs_at(t, now as int),
                is_paused: true,
                ..t
            };
            (Some(p), Ok(p))
        },
    }
}

/// The slot after `resume`, and what `resume` returns.
pub open spec fn resume_spec(slot: Option<ActiveTimer>, now: i64) -> (
    Option<ActiveTimer>,
    Result<ActiveTimer, AppError>,
) {
    match slot {
        None => (slot, Err(AppError::NoActiveTimer)),
        Some(t) => if !t.is_paused {
            (slot, Err(AppError::NotPaused))
        } else {
            let r = ActiveTimer { start_time: now, is_paused: false, ..t };
            (Some(r), Ok(r))
        },
    }
}

/// The slot after `stop`, and the time entry that `stop` records under `id`.
/// The entry spans the whole session, from its first start to `now`, while
/// its duration leaves out paused time.
pub open spec fn stop_spec(slot: Option<ActiveTimer>, now: i64, id: String) -> (
    Option<ActiveTimer>,
    Result<TimeEntry, AppError>,
) {
    match slot {
        None => (slot, Err(AppError::NoActiveTimer)),
        Some(t) => (
            None,
            Ok(
                timer_entry(
                    id,
                    t.project_id,
                    t.description,
                    t.session_start,
                    now,
                    elapsed_secs_at(t, now as int),
                    now,
                ),
            ),
        ),
    }
}

/// The time entry made from a manual input under `id`, or why it is refused:
/// the duration is the span from start to end and must be positive.
pub open spec fn manual_spec(input: CreateManualTimeEntry, id: String, created_at: i64) -> Result<
    TimeEntry,
    AppError,
> {
    let span = input.end_time - input.start_time;
    if span <= 0 {
        Err(AppError::InvalidRange)
    } else {
        Ok(
            TimeEntry {
                id,
                project_id: input.project_id,
                description: input.description,
                start_time: input.start_time,
                end_time: input.end_time,
                duration_secs: saturate(span),
                is_billable: input.is_billable,
                is_manual: true,
                invoice_id: None,
                created_at,
            },
        )
    }
}

/// What the timer looks like at `now`; `project_name` is the best-effort
/// name of the timer's project, dropped when no timer exists.
pub open spec fn state_spec(
    slot: Option<ActiveTimer>,
    project_name: Option<String>,
    now: i64,
) -> TimerState {
    match slot {
        None => TimerState {
            is_running: false,
            is_paused: false,
            project_id: None,
            project_name: None,
            description: None,
            elapsed_secs: 0,
            start_time: None,
        },
        Some(t) => TimerState {
            is_running: true,
            is_paused: t.is_paused,
            project_id: Some(t.project_id),
            project_name,
            description: t.description,
            elapsed_secs: elapsed_secs_at(t, now as int),
            start_time: Some(t.start_time),
        },
    }
}

impl ActiveTimer {
    /// Seconds counted by `now`, excluding paused time.
    pub fn elapsed_secs(&self, now: i64) -> (r: i64)
        ensures
            r == elapsed_secs_at(*self, now as int),
    {
        if self.is_paused {
            self.accumulated_secs
        } else {
            let e: i128 = self.accumulated_secs as i128 + (now as i128 - self.start_time as i128);
            if e < i64::MIN as i128 {
                i64::MIN
            } else if e > i64::MAX as i128 {
                i64::MAX
            } else {
                e as i64
            }
        }
    }
}

/// Starts a timer at `now` in an empty slot.
pub fn start_timer_at(
    slot: &mut Option<ActiveTimer>,
    project_id: String,
    description: Option<String>,
    now: i64,
) -> (r: Result<ActiveTimer, AppError>)
    ensures
        (*final(slot), r) == start_spec(*old(slot), project_id, description, now),
{
    if slot.is_some() {
        return Err(AppError::TimerConflict);
    }
    let t = ActiveTimer {
        project_id,
        description,
        session_start: now,
        start_time: now,
        accumulated_secs: 0,
        is_paused: false,
    };
    *slot = Some(t.copy());
    Ok(t)
}

/// Pauses the running timer at `now`, banking the current interval.
pub fn pause_timer_at(slot: &mut Option<ActiveTimer>, now: i64) -> (r: Result<ActiveTimer, AppError>)
    ensures
        (*final(slot), r) == pause_spec(*old(slot), now),
{
    let cur = match slot {
        None => {
            return Err(AppError::NoActiveTimer);
        },
        Some(t) => t.copy(),
    };
    if cur.is_paused {
        return Err(AppError::AlreadyPaused);
    }
    let elapsed = cur.elapsed_secs(now);
    let p = ActiveTimer { accumulated_secs: elapsed, is_paused: true, ..cur };
    *slot = Some(p.copy());
    Ok(p)
}

/// Resumes the paused timer at `now`; the banked seconds are kept.
pub fn resume_timer_at(slot: &mut Option<ActiveTimer>, now: i64) -> (r: Result<
    ActiveTimer,
    AppError,
>)
    ensures
        (*final(slot), r) == resume_spec(*old(slot), now),
{
    let cur = match slot {
        None => {
            return Err(AppError::NoActiveTimer);
        },
        Some(t) => t.copy(),
    };
    if !cur.is_paused {
        return Err(AppError::NotPaused);
    }
    let r = ActiveTimer { start_time: now, is_paused: false, ..cur };
    *slot = Some(r.copy());
    Ok(r)
}

/// Records a finished timing session under `id`, made at `created_at`.
pub fn time_entry_from_timer(
    id: String,
    project_id: String,
    description: Option<String>,
    start_time: i64,
    end_time: i64,
    duration_secs: i64,
    created_at: i64,
) -> (r: TimeEntry)
    ensures
        r == timer_entry(
            id,
            project_id,
            description,
            start_time,
            end_time,
            duration_secs,
            created_at,
        ),
{
    TimeEntry {
        id,
        project_id,
        description,
        start_time,
        end_time,
        duration_secs,
        is_billable: true,
        is_manual: false,
        invoice_id: None,
        created_at,
    }
}

/// Stops the timer at `now`: its session becomes a time entry under `id`
/// and the slot is emptied.
pub fn stop_timer_at(slot: &mut Option<ActiveTimer>, now: i64, id: String) -> (r: Result<
    TimeEntry,
    AppError,
>)
    ensures
        (*final(slot), r) == stop_spec(*old(slot), now, id),
{
    let cur = match slot {
        None => {
            return Err(AppError::NoActiveTimer);
        },
        Some(t) => t.copy(),
    };
    let elapsed = cur.elapsed_secs(now);
    let entry = time_entry_from_timer(
        id,
        cur.project_id,
        cur.description,
        cur.session_start,
        now,
        elapsed,
        now,
    );
    *slot = None;
    Ok(entry)
}

/// Records time entered by hand under `id`, made at `created_at`.
pub fn manual_time_entry(input: CreateManualTimeEntry, id: String, created_at: i64) -> (r: Result<
    TimeEntry,
    AppError,
>)
    ensures
        r == manual_spec(input, id, created_at),
{
    let span: i128 = input.end_time as i128 - input.start_time as i128;
    if span <= 0 {
        return Err(AppError::InvalidRange);
    }
    let duration: i64 = if span > i64::MAX as i128 {
        i64::MAX
    } else {
        span as i64
    };
    Ok(
        TimeEntry {
            id,
            project_id: input.project_id,
            description: input.description,
            start_time: input.start_time,
            end_time: input.end_time,
            duration_secs: duration,
            is_billable: input.is_billable,
            is_manual: true,
            invoice_id: None,
            created_at,
        },
    )
}

/// What the timer looks like at `now`; never fails.
pub fn timer_state_at(slot: &Option<ActiveTimer>, project_name: Option<String>, now: i64) -> (r:
    TimerState)
    ensures
        r == state_spec(*slot, project_name, now),
{
    match slot {
        None => TimerState {
            is_running: false,
            is_paused: false,
            project_id: None,
            project_name: None,
            description: None,
            elapsed_secs: 0,
            start_time: None,
        },
        Some(t) => TimerState {
            is_running: true,
            is_paused: t.is_paused,
            project_id: Some(t.project_id.clone()),
            project_name,
            description: copy_opt(&t.description),
            elapsed_secs: t.elapsed_secs(now),
            start_time: Some(t.start_time),
        },
    }
}

/// Starts a timer now in an empty slot.
pub fn start_timer(
    slot: &mut Option<ActiveTimer>,
    project_id: String,
    description: Option<String>,
) -> (r: Result<ActiveTimer, AppError>)
    ensures
        exists|now: i64|
            (*final(slot), r) == #[trigger] start_spec(*old(slot), project_id, description, now),
{
    let now = current_timestamp();
    start_timer_at(slot, project_id, description, now)
}

/// Pauses the running timer now.
pub fn pause_timer(slot: &mut Option<ActiveTimer>) -> (r: Result<ActiveTimer, AppError>)
    ensures
        exists|now: i64| (*final(slot), r) == #[trigger] pause_spec(*old(slot), now),
{
    let now = current_timestamp();
    pause_timer_at(slot, now)
}

/// Resumes the paused timer now.
pub fn resume_timer(slot: &mut Option<ActiveTimer>) -> (r: Result<ActiveTimer, AppError>)
    ensures
        exists|now: i64| (*final(slot), r) == #[trigger] resume_spec(*old(slot), now),
{
    let now = current_timestamp();
    resume_timer_at(slot, now)
}

/// Stops the timer now, recording its session under a fresh identifier.
pub fn stop_timer(slot: &mut Option<ActiveTimer>) -> (r: Result<TimeEntry, AppError>)
    ensures
        exists|now: i64, id: String| (*final(slot), r) == #[trigger] stop_spec(*old(slot), now, id),
{
    let now = current_timestamp();
    let id = new_record_id();
    stop_timer_at(slot, now, id)
}

/// Records a finished timing session under a fresh identifier, made now.
pub fn create_time_entry_from_timer(
    project_id: String,
    description: Option<String>,
    start_time: i64,
    end_time: i64,
    duration_secs: i64,
) -> (r: TimeEntry)
    ensures
        r.project_id == project_id,
        r.description == description,
        r.start_time == start_time,
        r.end_time == end_time,
        r.duration_secs == duration_secs,
        r.is_billable,
        !r.is_manual,
        r.invoice_id.is_none(),
{
    let id = new_record_id();
    let now = current_timestamp();
    time_entry_from_timer(id, project_id, description, start_time, end_time, duration_secs, now)
}

/// Records time entered by hand under a fresh identifier, made now.
pub fn create_manual_time_entry(input: CreateManualTimeEntry) -> (r: Result<TimeEntry, AppError>)
    ensures
        exists|id: String, now: i64| r == #[trigger] manual_spec(input, id, now),
{
    let id = new_record_id();
    let now = current_timestamp();
    manual_time_entry(input, id, now)
}

/// What the timer looks like now.
pub fn get_timer_state(slot: &Option<ActiveTimer>, project_name: Option<String>) -> (r: TimerState)
    ensures
        exists|now: i64| r == #[trigger] state_spec(*slot, project_name, now),
{
    let now = current_timestamp();
    timer_state_at(slot, project_name, now)
}

} // verus!
