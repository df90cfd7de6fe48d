//! Properties of the timer engine that relate several transitions, stated
//! over the transitions' own specifications and proved.
use crate::timer::{is_break, IntervalType, TickAction, TimerInner, TimerState};
use vstd::prelude::*;

verus! {

/// Right after a work interval of `d > 0` seconds starts at `t0`, the status
/// at any `t1` before the deadline reports a remaining time in
/// `(0, d * 1000]`; at `t1 == t0` it is exactly `d * 1000`.
pub proof fn lemma_start_then_status_remaining(
    s: TimerInner,
    d: u32,
    id: i64,
    overtime_enabled: bool,
    t0: u64,
    t1: u64,
)
    requires
        s.wf(),
        s.state == TimerState::Idle,
        d > 0,
        t0 <= t1,
        t1 - t0 < d * 1000,
        t0 + d * 1000 <= u64::MAX,
    ensures
        ({
            let r = s.started(IntervalType::Work, d, id, overtime_enabled, t0).status_spec(
                t1,
            ).remaining_ms;
            &&& 0 < r <= d * 1000
            &&& t1 == t0 ==> r == d * 1000
        }),
{
}

/// Pausing at `t1` and resuming at `t2` keeps the remaining time: right after
/// the resume it equals the remaining time at the pause, and at any later
/// `t3` it has dropped by no more than the time spent running since the
/// resume. While paused it does not change at all.
pub proof fn lemma_pause_resume_keeps_remaining(s: TimerInner, t1: u64, t2: u64, t3: u64)
    requires
        s.wf(),
        s.state == TimerState::Running,
        !s.overtime,
        t1 <= t2 <= t3,
        t2 + s.remaining_at(t1) <= u64::MAX,
    ensures
        ({
            let r0 = s.status_spec(t1).remaining_ms;
            let p = s.paused(t1);
            let q = p.resumed(t2);
            &&& forall|t: u64| #[trigger] p.status_spec(t).remaining_ms == r0
            &&& q.status_spec(t2).remaining_ms == r0
            &&& q.status_spec(t3).remaining_ms <= r0
            &&& r0 - q.status_spec(t3).remaining_ms <= t3 - t2
        }),
{
}

/// Cancelling an interval of `d` seconds started at `t0`, at a reading `t1`
/// no later than its deadline, reports the whole seconds between the two
/// readings; within two seconds of the start that is at most one.
pub proof fn lemma_cancel_soon_after_start(
    s: TimerInner,
    kind: IntervalType,
    d: u32,
    id: i64,
    overtime_enabled: bool,
    t0: u64,
    t1: u64,
)
    requires
        s.wf(),
        s.state == TimerState::Idle,
        t0 <= t1,
        t1 - t0 <= d * 1000,
        t0 + d * 1000 <= u64::MAX,
    ensures
        ({
            let r = s.started(kind, d, id, overtime_enabled, t0);
            &&& r.state == TimerState::Running
            &&& !r.overtime
            &&& r.elapsed_seconds_at(t1) == (t1 - t0) / 1000
            &&& t1 - t0 < 2000 ==> r.elapsed_seconds_at(t1) <= 1
        }),
{
}

/// Starting and completing one interval from an idle session: work adds one
/// to the work count (unless it is already at its largest value), a long
/// break resets it to zero, and a short break leaves it unchanged. The
/// session ends idle either way.
pub proof fn lemma_completion_counts(
    s: TimerInner,
    kind: IntervalType,
    d: u32,
    id: i64,
    overtime_enabled: bool,
    now: u64,
)
    requires
        s.wf(),
        s.state == TimerState::Idle,
    ensures
        ({
            let c = s.started(kind, d, id, overtime_enabled, now).completed();
            &&& c.wf()
            &&& c.state == TimerState::Idle
            &&& kind == IntervalType::Work && s.completed_work_count < u32::MAX
                ==> c.completed_work_count == s.completed_work_count + 1
            &&& kind == IntervalType::LongBreak ==> c.completed_work_count == 0
            &&& kind == IntervalType::ShortBreak ==> c.completed_work_count
                == s.completed_work_count
        }),
{
}

/// Four work intervals in a row, each started and completed, take the work
/// count from zero to four; one long break started and completed after them
/// takes it back to zero. The durations, records, times and overtime setting
/// of the five intervals are arbitrary.
pub proof fn lemma_four_work_then_long_break(
    s: TimerInner,
    d: Seq<u32>,
    id: Seq<i64>,
    now: Seq<u64>,
    overtime_enabled: bool,
)
    requires
        s.wf(),
        s.state == TimerState::Idle,
        s.completed_work_count == 0,
        d.len() == 5,
        id.len() == 5,
        now.len() == 5,
    ensures
        ({
            let s1 = s.started(IntervalType::Work, d[0], id[0], overtime_enabled, now[0]).completed();
            let s2 = s1.started(IntervalType::Work, d[1], id[1], overtime_enabled, now[1]).completed();
            let s3 = s2.started(IntervalType::Work, d[2], id[2], overtime_enabled, now[2]).completed();
            let s4 = s3.started(IntervalType::Work, d[3], id[3], overtime_enabled, now[3]).completed();
            let s5 = s4.started(IntervalType::LongBreak, d[4], id[4], overtime_enabled, now[4]).completed();
            &&& s4.completed_work_count == 4
            &&& s5.completed_work_count == 0
            &&& s5.state == TimerState::Idle
        }),
{
}

/// When the tick loop finds a break with overtime enabled at or past its
/// deadline, the session goes on running in overtime with the interval
/// already counted. Cancelling it then (which reports zero seconds, as the
/// session is in overtime) leaves the work count as the completion set it.
pub proof fn lemma_cancel_in_overtime_keeps_count(s: TimerInner, now: u64)
    requires
        s.wf(),
        s.state == TimerState::Running,
        !s.overtime,
        is_break(s.interval_type),
        s.break_overtime_enabled,
        now >= s.end_instant.unwrap(),
    ensures
        ({
            let o = s.after_tick(now);
            &&& o.wf()
            &&& o.state == TimerState::Running
            &&& o.overtime
            &&& o.completed_work_count == s.count_after_completion()
            &&& o.cancelled().completed_work_count == o.completed_work_count
            &&& o.cancelled().state == TimerState::Idle
        }),
{
}

/// Between two polls of a running session outside overtime, at `t1 <= t2`
/// and both before the deadline, the reported remaining time does not grow.
pub proof fn lemma_ticks_count_down(s: TimerInner, t1: u64, t2: u64)
    requires
        s.wf(),
        s.state == TimerState::Running,
        !s.overtime,
        t1 <= t2 < s.end_instant.unwrap(),
    ensures
        ({
            match (s.tick_action(t1), s.tick_action(t2)) {
                (TickAction::Tick(a), TickAction::Tick(b)) => b.remaining_ms <= a.remaining_ms
                    && a.remaining_ms - b.remaining_ms == t2 - t1,
                _ => false,
            }
        }),
{
}

} // verus!
