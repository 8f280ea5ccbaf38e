use vstd::prelude::*;

use crate::error::AppError;
use crate::models::{ActiveTimer, CreateManualTimeEntry};
use crate::timer::{manual_spec, pause_spec, resume_spec, start_spec, stop_spec};

verus! {

/// One operation on the timer slot, as a caller issues it.
pub enum TimerOp {
    Start { project_id: String, description: Option<String> },
    Pause,
    Resume,
    Stop { id: String },
}

/// The slot after applying `op` at instant `now`.
pub open spec fn apply_op(slot: Option<ActiveTimer>, op: TimerOp, now: i64) -> Option<ActiveTimer> {
    match op {
        TimerOp::Start { project_id, description } => start_spec(
            slot,
            project_id,
            description,
            now,
        ).0,
        TimerOp::Pause => pause_spec(slot, now).0,
        TimerOp::Resume => resume_spec(slot, now).0,
        TimerOp::Stop { id } => stop_spec(slot, now, id).0,
    }
}

/// The slot after applying each operation in turn, each at its instant.
pub open spec fn run_ops(slot: Option<ActiveTimer>, ops: Seq<(TimerOp, i64)>) -> Option<ActiveTimer>
    decreases ops.len(),
{
    if ops.len() == 0 {
        slot
    } else {
        apply_op(run_ops(slot, ops.drop_last()), ops.last().0, ops.last().1)
    }
}

/// Whether `ops` holds a stop.
pub open spec fn has_stop(ops: Seq<(TimerOp, i64)>) -> bool {
    exists|i: int| 0 <= i < ops.len() && (#[trigger] ops[i]).0 is Stop
}

/// Whether, after `ops` from an empty slot, a timer should exist: the most
/// recent start or stop decides, and pauses and resumes change nothing.
pub open spec fn occupied_after(ops: Seq<(TimerOp, i64)>) -> bool
    decreases ops.len(),
{
    if ops.len() == 0 {
        false
    } else {
        match ops.last().0 {
            TimerOp::Start { .. } => true,
            TimerOp::Stop { .. } => false,
            _ => occupied_after(ops.drop_last()),
        }
    }
}

/// Over any sequence of operations from an empty slot, each succeeding or
/// failing, the slot holds at most one timer (it is an `Option`), and it
/// holds one exactly from a start until the next stop.
pub proof fn lemma_timer_occupancy(ops: Seq<(TimerOp, i64)>)
    ensures
        (run_ops(None, ops) is Some) == occupied_after(ops),
    decreases ops.len(),
{
    if ops.len() > 0 {
        lemma_timer_occupancy(ops.drop_last());
    }
}

/// Once a timer exists, it goes on existing through any sequence of
/// operations without a stop, and a second start in that time is refused
/// with `TimerConflict`, leaving the slot as it was.
pub proof fn lemma_single_timer(
    slot: Option<ActiveTimer>,
    ops: Seq<(TimerOp, i64)>,
    project_id: String,
    description: Option<String>,
    now: i64,
)
    requires
        slot is Some,
        !has_stop(ops),
    ensures
        run_ops(slot, ops) is Some,
        start_spec(run_ops(slot, ops), project_id, description, now) == (
            run_ops(slot, ops),
            Err::<ActiveTimer, AppError>(AppError::TimerConflict),
        ),
    decreases ops.len(),
{
    if ops.len() > 0 {
        let init = ops.drop_last();
        assert forall|i: int| 0 <= i < init.len() implies !((#[trigger] init[i]).0 is Stop) by {
            assert(init[i] == ops[i]);
        }
        lemma_single_timer(slot, init, project_id, description, now);
        assert(!(ops[ops.len() - 1].0 is Stop));
    }
}

/// A start that follows a successful start, with nothing in between, is
/// refused with `TimerConflict`.
pub proof fn lemma_start_twice(
    slot: Option<ActiveTimer>,
    first_project: String,
    first_description: Option<String>,
    first_at: i64,
    second_project: String,
    second_description: Option<String>,
    second_at: i64,
)
    ensures
        start_spec(
            start_spec(slot, first_project, first_description, first_at).0,
            second_project,
            second_description,
            second_at,
        ).1 == Err::<ActiveTimer, AppError>(AppError::TimerConflict),
{
}

/// Paused time is not counted: a session started at `a`, paused at `b`,
/// resumed at `c` and stopped at `e` lasts `(b - a) + (e - c)` seconds, and
/// its entry spans the whole session, from `a` to `e`.
pub proof fn lemma_paused_gap_excluded(
    project_id: String,
    description: Option<String>,
    a: i64,
    b: i64,
    c: i64,
    e: i64,
    id: String,
)
    requires
        i64::MIN <= b - a <= i64::MAX,
        i64::MIN <= (b - a) + (e - c) <= i64::MAX,
    ensures
        ({
            let s1 = start_spec(None, project_id, description, a).0;
            let s2 = pause_spec(s1, b).0;
            let s3 = resume_spec(s2, c).0;
            let (s4, r) = stop_spec(s3, e, id);
            &&& s4 is None
            &&& r is Ok
            &&& r->Ok_0.duration_secs == (b - a) + (e - c)
            &&& r->Ok_0.start_time == a
            &&& r->Ok_0.end_time == e
        }),
{
}

/// A second pause without a resume in between is refused with
/// `AlreadyPaused`, and a resume of a running timer with `NotPaused`.
pub proof fn lemma_pause_resume_errors(slot: Option<ActiveTimer>, first_at: i64, second_at: i64)
    requires
        slot is Some,
    ensures
        pause_spec(pause_spec(slot, first_at).0, second_at).1 == Err::<ActiveTimer, AppError>(
            AppError::AlreadyPaused,
        ),
        !slot->Some_0.is_paused ==> resume_spec(slot, first_at) == (
            slot,
            Err::<ActiveTimer, AppError>(AppError::NotPaused),
        ),
{
}

/// A manual entry whose end is not after its start is refused with
/// `InvalidRange`; otherwise it is accepted, and its duration is the span
/// from start to end wherever that span fits in 64 bits.
pub proof fn lemma_manual_entry(input: CreateManualTimeEntry, id: String, created_at: i64)
    ensures
        input.end_time <= input.start_time ==> manual_spec(input, id, created_at) == Err::<
            crate::models::TimeEntry,
            AppError,
        >(AppError::InvalidRange),
        input.end_time > input.start_time ==> {
            &&& manual_spec(input, id, created_at) is Ok
            &&& manual_spec(input, id, created_at)->Ok_0.is_manual
        },
        input.end_time > input.start_time && input.end_time - input.start_time <= i64::MAX
            ==> manual_spec(input, id, created_at)->Ok_0.duration_secs == input.end_time
            - input.start_time,
{
}

} // verus!
