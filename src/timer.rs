//! The timer engine: one session at a time, moved between `Idle`, `Running`
//! and `Paused` by explicit transitions, with remaining and overtime
//! milliseconds derived from a monotonic clock.
//!
//! Every transition comes in two forms. The `_at` form takes the clock
//! reading `now` (milliseconds on the monotonic clock) as an argument and is
//! specified exactly; the plain form reads the timer's own clock and then does
//! what the `_at` form does for that reading.
use crate::clock::MonotonicClock;
use vstd::prelude::*;

verus! {

/// Where a timing session stands.
#[derive(Debug, Clone, Copy, PartialEq, Eq, Structural)]
pub enum TimerState {
    Idle,
    Running,
    Paused,
}

/// The kind of interval being timed.
#[derive(Debug, Clone, Copy, PartialEq, Eq, Structural)]
pub enum IntervalType {
    Work,
    ShortBreak,
    LongBreak,
}

/// The name under which an interval kind is stored.
pub open spec fn db_name(kind: IntervalType) -> Seq<char> {
    match kind {
        IntervalType::Work => "work"@,
        IntervalType::ShortBreak => "short_break"@,
        IntervalType::LongBreak => "long_break"@,
    }
}

/// Whether the kind is a break (short or long).
pub open spec fn is_break(kind: IntervalType) -> bool {
    kind != IntervalType::Work
}

impl IntervalType {
    /// The name under which this kind is stored.
    pub fn as_db_str(self) -> (r: &'static str)
        ensures
            r@ == db_name(self),
    {
        match self {
            IntervalType::Work => "work",
            IntervalType::ShortBreak => "short_break",
            IntervalType::LongBreak => "long_break",
        }
    }
}

/// Why a transition was refused.
#[derive(Debug, Clone, Copy, PartialEq, Eq, Structural)]
pub enum TimerError {
    /// The transition is not legal from the current state.
    InvalidTransition,
    /// The request is malformed, such as a duration of zero.
    InvalidArgument,
}

/// Sent on every tick of a running session.
#[derive(Debug, Clone, Copy, PartialEq, Eq, Structural)]
pub struct TimerTickPayload {
    pub remaining_ms: u64,
    pub interval_type: IntervalType,
    pub overtime_ms: u64,
}

/// Sent once when an interval reaches its deadline.
#[derive(Debug, Clone, Copy, PartialEq, Eq, Structural)]
pub struct TimerCompletePayload {
    pub interval_id: i64,
    pub interval_type: IntervalType,
    pub completed_work_count: u32,
    pub overtime: bool,
}

/// A read-only report of the session.
#[derive(Debug, Clone, Copy, PartialEq, Eq, Structural)]
pub struct TimerStatus {
    pub state: TimerState,
    pub interval_type: IntervalType,
    pub remaining_ms: u64,
    pub planned_duration_seconds: u32,
    pub interval_id: Option<i64>,
    pub completed_work_count: u32,
    pub overtime: bool,
    pub overtime_ms: u64,
}

/// What the tick loop does after one poll of the session.
#[derive(Debug, Clone, Copy, PartialEq, Eq, Structural)]
pub enum TickAction {
    /// The session is no longer running: the loop ends without a report.
    Stop,
    /// Report progress; the loop goes on.
    Tick(TimerTickPayload),
    /// The deadline was reached. The interval `payload.interval_id` is to be
    /// recorded as completed after `planned_duration_seconds`, and `payload`
    /// reported. The loop goes on exactly when `payload.overtime` holds.
    Complete { payload: TimerCompletePayload, planned_duration_seconds: u32 },
}

/// The record that a cancel leaves to be finalized as cancelled.
#[derive(Debug, Clone, Copy, PartialEq, Eq, Structural)]
pub struct CancelledRecord {
    pub interval_id: i64,
    pub elapsed_seconds: u32,
}

/// `now + ms` on the clock, saturating at the clock's largest reading.
pub open spec fn deadline_after(now: u64, ms: u64) -> u64 {
    if now + ms > u64::MAX {
        u64::MAX
    } else {
        (now + ms) as u64
    }
}

/// The session of the timer.
///
/// `end_instant` is the deadline and `overtime_start` the moment overtime
/// began, both as readings of `clock`. `remaining_ms` is authoritative only
/// while the session is paused.
pub struct TimerInner {
    pub state: TimerState,
    pub interval_type: IntervalType,
    pub end_instant: Option<u64>,
    pub remaining_ms: u64,
    pub planned_duration_seconds: u32,
    pub interval_id: Option<i64>,
    pub completed_work_count: u32,
    pub overtime: bool,
    pub break_overtime_enabled: bool,
    pub overtime_start: Option<u64>,
    pub clock: MonotonicClock,
}

impl TimerInner {
    /// The session's invariant: a deadline exactly while running outside
    /// overtime, an overtime start exactly while in overtime, no overtime and
    /// no record while idle, and a record while a planned interval is active.
    pub open spec fn wf(&self) -> bool {
        &&& (self.end_instant.is_some() <==> (self.state == TimerState::Running
            && !self.overtime))
        &&& (self.overtime_start.is_some() <==> self.overtime)
        &&& (self.state == TimerState::Idle ==> !self.overtime && self.interval_id.is_none())
        &&& (self.state != TimerState::Idle && !self.overtime ==> self.interval_id.is_some())
    }

    /// A fresh session: idle, no work completed, overtime off.
    pub open spec fn is_fresh(&self) -> bool {
        &&& self.state == TimerState::Idle
        &&& self.interval_type == IntervalType::Work
        &&& self.end_instant.is_none()
        &&& self.remaining_ms == 0
        &&& self.planned_duration_seconds == 0
        &&& self.interval_id.is_none()
        &&& self.completed_work_count == 0
        &&& !self.overtime
        &&& !self.break_overtime_enabled
        &&& self.overtime_start.is_none()
    }

    /// Milliseconds left at `now`: zero in overtime and while idle, the
    /// snapshot while paused, and the distance to the deadline (at least zero)
    /// while running.
    pub open spec fn remaining_at(&self, now: u64) -> u64 {
        if self.overtime {
            0
        } else {
            match self.state {
                TimerState::Running => match self.end_instant {
                    Some(end) => if end > now {
                        (end - now) as u64
                    } else {
                        0
                    },
                    None => 0,
                },
                TimerState::Paused => self.remaining_ms,
                TimerState::Idle => 0,
            }
        }
    }

    /// Milliseconds spent in overtime at `now`, zero outside overtime.
    pub open spec fn overtime_at(&self, now: u64) -> u64 {
        if self.overtime {
            match self.overtime_start {
                Some(start) => if now > start {
                    (now - start) as u64
                } else {
                    0
                },
                None => 0,
            }
        } else {
            0
        }
    }

    /// The status report at `now`.
    pub open spec fn status_spec(&self, now: u64) -> TimerStatus {
        TimerStatus {
            state: self.state,
            interval_type: self.interval_type,
            remaining_ms: self.remaining_at(now),
            planned_duration_seconds: self.planned_duration_seconds,
            interval_id: self.interval_id,
            completed_work_count: self.completed_work_count,
            overtime: self.overtime,
            overtime_ms: self.overtime_at(now),
        }
    }

    /// The session after `start` at `now` from `Idle`.
    pub open spec fn started(
        &self,
        kind: IntervalType,
        duration_seconds: u32,
        interval_id: i64,
        overtime_enabled: bool,
        now: u64,
    ) -> TimerInner {
        TimerInner {
            state: TimerState::Running,
            interval_type: kind,
            end_instant: Some(deadline_after(now, (duration_seconds * 1000) as u64)),
            remaining_ms: (duration_seconds * 1000) as u64,
            planned_duration_seconds: duration_seconds,
            interval_id: Some(interval_id),
            overtime: false,
            break_overtime_enabled: overtime_enabled,
            overtime_start: None,
            ..*self
        }
    }

    /// The session after `pause` at `now` from `Running`.
    pub open spec fn paused(&self, now: u64) -> TimerInner {
        TimerInner {
            state: TimerState::Paused,
            end_instant: None,
            remaining_ms: self.remaining_at(now),
            ..*self
        }
    }

    /// The session after `resume` at `now` from `Paused`.
    pub open spec fn resumed(&self, now: u64) -> TimerInner {
        TimerInner {
            state: TimerState::Running,
            end_instant: if self.overtime {
                None
            } else {
                Some(deadline_after(now, self.remaining_ms))
            },
            ..*self
        }
    }

    /// The session after it is cancelled: idle, with the work count and the
    /// overtime setting kept.
    pub open spec fn cancelled(&self) -> TimerInner {
        TimerInner {
            state: TimerState::Idle,
            end_instant: None,
            remaining_ms: 0,
            interval_id: None,
            overtime: false,
            overtime_start: None,
            ..*self
        }
    }

    /// Whole seconds of the planned duration that had passed at `now`, as
    /// `cancel` reports them outside overtime.
    pub open spec fn elapsed_seconds_at(&self, now: u64) -> u32 {
        let planned_ms = self.planned_duration_seconds * 1000;
        let remaining = self.remaining_at(now);
        if remaining >= planned_ms {
            0
        } else {
            ((planned_ms - remaining) / 1000) as u32
        }
    }

    /// The work count after the current interval completes: one more after
    /// work (saturating), zero after a long break, unchanged after a short one.
    pub open spec fn count_after_completion(&self) -> u32 {
        match self.interval_type {
            IntervalType::Work => if self.completed_work_count == u32::MAX {
                u32::MAX
            } else {
                (self.completed_work_count + 1) as u32
            },
            IntervalType::LongBreak => 0,
            IntervalType::ShortBreak => self.completed_work_count,
        }
    }

    /// The session after `complete`: idle, with the work count updated.
    pub open spec fn completed(&self) -> TimerInner {
        TimerInner {
            state: TimerState::Idle,
            end_instant: None,
            remaining_ms: 0,
            interval_id: None,
            completed_work_count: self.count_after_completion(),
            overtime: false,
            overtime_start: None,
            ..*self
        }
    }

    /// The session after overtime begins at `now`.
    pub open spec fn in_overtime(&self, now: u64) -> TimerInner {
        TimerInner { overtime: true, overtime_start: Some(now), ..*self }
    }

    /// The session after one poll of the tick loop at `now`.
    pub open spec fn after_tick(&self, now: u64) -> TimerInner {
        if self.state != TimerState::Running || self.overtime || now < self.end_instant.unwrap() {
            *self
        } else if is_break(self.interval_type) && self.break_overtime_enabled {
            TimerInner { state: TimerState::Running, ..self.completed() }.in_overtime(now)
        } else {
            self.completed()
        }
    }

    /// What the tick loop does after one poll at `now`.
    pub open spec fn tick_action(&self, now: u64) -> TickAction {
        if self.state != TimerState::Running {
            TickAction::Stop
        } else if self.overtime {
            TickAction::Tick(
                TimerTickPayload {
                    remaining_ms: 0,
                    interval_type: self.interval_type,
                    overtime_ms: self.overtime_at(now),
                },
            )
        } else if now < self.end_instant.unwrap() {
            TickAction::Tick(
                TimerTickPayload {
                    remaining_ms: (self.end_instant.unwrap() - now) as u64,
                    interval_type: self.interval_type,
                    overtime_ms: 0,
                },
            )
        } else {
            TickAction::Complete {
                payload: TimerCompletePayload {
                    interval_id: self.interval_id.unwrap(),
                    interval_type: self.interval_type,
                    completed_work_count: self.count_after_completion(),
                    overtime: is_break(self.interval_type) && self.break_overtime_enabled,
                },
                planned_duration_seconds: self.planned_duration_seconds,
            }
        }
    }

    /// A fresh idle session with its own clock.
    pub fn new() -> (r: TimerInner)
        ensures
            r.wf(),
            r.is_fresh(),
    {
        TimerInner {
            state: TimerState::Idle,
            interval_type: IntervalType::Work,
            end_instant: None,
            remaining_ms: 0,
            planned_duration_seconds: 0,
            interval_id: None,
            completed_work_count: 0,
            overtime: false,
            break_overtime_enabled: false,
            overtime_start: None,
            clock: MonotonicClock::new(),
        }
    }

    /// A reading of the session's clock.
    pub fn now_ms(&self) -> (r: u64) {
        self.clock.now_ms()
    }

    /// Milliseconds left at `now`.
    pub fn compute_remaining_ms_at(&self, now: u64) -> (r: u64)
        ensures
            r == self.remaining_at(now),
    {
        if self.overtime {
            return 0;
        }
        match self.state {
            TimerState::Running => match self.end_instant {
                Some(end) => if end > now {
                    end - now
                } else {
                    0
                },
                None => 0,
            },
            TimerState::Paused => self.remaining_ms,
            TimerState::Idle => 0,
        }
    }

    /// Milliseconds left now.
    pub fn compute_remaining_ms(&self) -> (r: u64)
        ensures
            exists|now: u64| r == self.remaining_at(now),
    {
        let now = self.now_ms();
        self.compute_remaining_ms_at(now)
    }

    /// Milliseconds spent in overtime at `now`.
    pub fn compute_overtime_ms_at(&self, now: u64) -> (r: u64)
        ensures
            r == self.overtime_at(now),
    {
        if self.overtime {
            match self.overtime_start {
                Some(start) => if now > start {
                    now - start
                } else {
                    0
                },
                None => 0,
            }
        } else {
            0
        }
    }

    /// Milliseconds spent in overtime now.
    pub fn compute_overtime_ms(&self) -> (r: u64)
        ensures
            exists|now: u64| r == self.overtime_at(now),
            !self.overtime ==> r == 0,
    {
        let now = self.now_ms();
        self.compute_overtime_ms_at(now)
    }

    /// The status report at `now`.
    pub fn status_at(&self, now: u64) -> (r: TimerStatus)
        ensures
            r == self.status_spec(now),
    {
        TimerStatus {
            state: self.state,
            interval_type: self.interval_type,
            remaining_ms: self.compute_remaining_ms_at(now),
            planned_duration_seconds: self.planned_duration_seconds,
            interval_id: self.interval_id,
            completed_work_count: self.completed_work_count,
            overtime: self.overtime,
            overtime_ms: self.compute_overtime_ms_at(now),
        }
    }

    /// The status report now.
    pub fn status(&self) -> (r: TimerStatus)
        ensures
            exists|now: u64| r == self.status_spec(now),
    {
        let now = self.now_ms();
        self.status_at(now)
    }

    /// `Idle -> Running` at `now`: the deadline is `now` plus the duration,
    /// and `overtime_enabled` is the break-overtime setting for the session.
    /// From any other state the session is left as it was.
    pub fn start_at(
        &mut self,
        interval_type: IntervalType,
        duration_seconds: u32,
        interval_id: i64,
        overtime_enabled: bool,
        now: u64,
    ) -> (r: Result<(), TimerError>)
        requires
            old(self).wf(),
        ensures
            final(self).wf(),
            old(self).state == TimerState::Idle ==> r == Ok::<(), TimerError>(())
                && *final(self) == old(self).started(
                interval_type,
                duration_seconds,
                interval_id,
                overtime_enabled,
                now,
            ),
            old(self).state != TimerState::Idle ==> r == Err::<(), TimerError>(
                TimerError::InvalidTransition,
            ) && *final(self) == *old(self),
    {
        if self.state != TimerState::Idle {
            return Err(TimerError::InvalidTransition);
        }
        let planned_ms: u64 = duration_seconds as u64 * 1000;
        self.state = TimerState::Running;
        self.interval_type = interval_type;
        self.planned_duration_seconds = duration_seconds;
        self.interval_id = Some(interval_id);
        self.end_instant = Some(now.saturating_add(planned_ms));
        self.remaining_ms = planned_ms;
        self.overtime = false;
        self.overtime_start = None;
        self.break_overtime_enabled = overtime_enabled;
        Ok(())
    }

    /// `Idle -> Running` now, with the break-overtime setting the session
    /// already holds.
    pub fn start(&mut self, interval_type: IntervalType, duration_seconds: u32, interval_id: i64) -> (r:
        Result<(), TimerError>)
        requires
            old(self).wf(),
        ensures
            final(self).wf(),
            old(self).state == TimerState::Idle ==> r == Ok::<(), TimerError>(()) && exists|
                now: u64,
            |
                *final(self) == old(self).started(
                    interval_type,
                    duration_seconds,
                    interval_id,
                    old(self).break_overtime_enabled,
                    now,
                ),
            old(self).state != TimerState::Idle ==> r == Err::<(), TimerError>(
                TimerError::InvalidTransition,
            ) && *final(self) == *old(self),
    {
        let now = self.now_ms();
        let enabled = self.break_overtime_enabled;
        self.start_at(interval_type, duration_seconds, interval_id, enabled, now)
    }

    /// `Running -> Paused` at `now`: the remaining time is kept and the
    /// deadline dropped. From any other state the session is left as it was.
    pub fn pause_at(&mut self, now: u64) -> (r: Result<(), TimerError>)
        requires
            old(self).wf(),
        ensures
            final(self).wf(),
            old(self).state == TimerState::Running ==> r == Ok::<(), TimerError>(())
                && *final(self) == old(self).paused(now),
            old(self).state != TimerState::Running ==> r == Err::<(), TimerError>(
                TimerError::InvalidTransition,
            ) && *final(self) == *old(self),
    {
        if self.state != TimerState::Running {
            return Err(TimerError::InvalidTransition);
        }
        self.remaining_ms = self.compute_remaining_ms_at(now);
        self.state = TimerState::Paused;
        self.end_instant = None;
        Ok(())
    }

    /// `Running -> Paused` now.
    pub fn pause(&mut self) -> (r: Result<(), TimerError>)
        requires
            old(self).wf(),
        ensures
            final(self).wf(),
            old(self).state == TimerState::Running ==> r == Ok::<(), TimerError>(()) && exists|
                now: u64,
            |
                *final(self) == old(self).paused(now),
            old(self).state != TimerState::Running ==> r == Err::<(), TimerError>(
                TimerError::InvalidTransition,
            ) && *final(self) == *old(self),
    {
        let now = self.now_ms();
        self.pause_at(now)
    }

    /// `Paused -> Running` at `now`: the deadline is `now` plus the time that
    /// was left (none is set in overtime, which has no deadline). From any
    /// other state the session is left as it was.
    pub fn resume_at(&mut self, now: u64) -> (r: Result<(), TimerError>)
        requires
            old(self).wf(),
        ensures
            final(self).wf(),
            old(self).state == TimerState::Paused ==> r == Ok::<(), TimerError>(())
                && *final(self) == old(self).resumed(now),
            old(self).state != TimerState::Paused ==> r == Err::<(), TimerError>(
                TimerError::InvalidTransition,
            ) && *final(self) == *old(self),
    {
        if self.state != TimerState::Paused {
            return Err(TimerError::InvalidTransition);
        }
        self.state = TimerState::Running;
        if !self.overtime {
            self.end_instant = Some(now.saturating_add(self.remaining_ms));
        }
        Ok(())
    }

    /// `Paused -> Running` now.
    pub fn resume(&mut self) -> (r: Result<(), TimerError>)
        requires
            old(self).wf(),
        ensures
            final(self).wf(),
            old(self).state == TimerState::Paused ==> r == Ok::<(), TimerError>(()) && exists|
                now: u64,
            |
                *final(self) == old(self).resumed(now),
            old(self).state != TimerState::Paused ==> r == Err::<(), TimerError>(
                TimerError::InvalidTransition,
            ) && *final(self) == *old(self),
    {
        let now = self.now_ms();
        self.resume_at(now)
    }

    /// `Running | Paused -> Idle` at `now`. Returns the whole seconds of the
    /// planned duration that had passed, or zero in overtime, whose interval
    /// was already finalized as completed. The work count is not touched.
    /// From `Idle` the session is left as it was.
    pub fn cancel_at(&mut self, now: u64) -> (r: Result<u32, TimerError>)
        requires
            old(self).wf(),
        ensures
            final(self).wf(),
            old(self).state == TimerState::Idle ==> r == Err::<u32, TimerError>(
                TimerError::InvalidTransition,
            ) && *final(self) == *old(self),
            old(self).state != TimerState::Idle ==> *final(self) == old(self).cancelled(),
            old(self).state != TimerState::Idle && old(self).overtime ==> r == Ok::<
                u32,
                TimerError,
            >(0),
            old(self).state != TimerState::Idle && !old(self).overtime ==> r == Ok::<
                u32,
                TimerError,
            >(old(self).elapsed_seconds_at(now)),
    {
        if self.state == TimerState::Idle {
            return Err(TimerError::InvalidTransition);
        }
        let elapsed_seconds: u32 = if self.overtime {
            0
        } else {
            let remaining = self.compute_remaining_ms_at(now);
            let planned_ms: u64 = self.planned_duration_seconds as u64 * 1000;
            let elapsed_ms = planned_ms.saturating_sub(remaining);
            (elapsed_ms / 1000) as u32
        };
        self.state = TimerState::Idle;
        self.end_instant = None;
        self.remaining_ms = 0;
        self.interval_id = None;
        self.overtime = false;
        self.overtime_start = None;
        Ok(elapsed_seconds)
    }

    /// `Running | Paused -> Idle` now.
    pub fn cancel(&mut self) -> (r: Result<u32, TimerError>)
        requires
            old(self).wf(),
        ensures
            final(self).wf(),
            old(self).state == TimerState::Idle ==> r == Err::<u32, TimerError>(
                TimerError::InvalidTransition,
            ) && *final(self) == *old(self),
            old(self).state != TimerState::Idle ==> *final(self) == old(self).cancelled(),
            old(self).state != TimerState::Idle && old(self).overtime ==> r == Ok::<
                u32,
                TimerError,
            >(0),
            old(self).state != TimerState::Idle && !old(self).overtime ==> exists|now: u64|
                r == Ok::<u32, TimerError>(old(self).elapsed_seconds_at(now)),
    {
        let now = self.now_ms();
        self.cancel_at(now)
    }

    /// Marks the current interval complete: the work count goes up by one
    /// after work, back to zero after a long break, and stays after a short
    /// break; the session becomes idle.
    pub fn complete(&mut self)
        requires
            old(self).wf(),
        ensures
            final(self).wf(),
            *final(self) == old(self).completed(),
    {
        match self.interval_type {
            IntervalType::Work => {
                self.completed_work_count = self.completed_work_count.saturating_add(1);
            },
            IntervalType::LongBreak => {
                self.completed_work_count = 0;
            },
            IntervalType::ShortBreak => {},
        }
        self.state = TimerState::Idle;
        self.end_instant = None;
        self.remaining_ms = 0;
        self.interval_id = None;
        self.overtime = false;
        self.overtime_start = None;
    }

    /// Begins overtime at `now`.
    pub fn enter_overtime_at(&mut self, now: u64)
        ensures
            *final(self) == old(self).in_overtime(now),
    {
        self.overtime = true;
        self.overtime_start = Some(now);
    }

    /// Begins overtime now.
    pub fn enter_overtime(&mut self)
        ensures
            exists|now: u64| *final(self) == old(self).in_overtime(now),
    {
        let now = self.now_ms();
        self.enter_overtime_at(now)
    }

    /// One poll of the tick loop at `now`. A session that is not running
    /// stops the loop. In overtime, or before the deadline, the poll reports
    /// progress and changes nothing. At or past the deadline the interval
    /// completes: a break with overtime enabled goes on running in overtime
    /// from `now`, anything else becomes idle.
    pub fn tick_at(&mut self, now: u64) -> (r: TickAction)
        requires
            old(self).wf(),
        ensures
            final(self).wf(),
            *final(self) == old(self).after_tick(now),
            r == old(self).tick_action(now),
    {
        if self.state != TimerState::Running {
            return TickAction::Stop;
        }
        if self.overtime {
            return TickAction::Tick(
                TimerTickPayload {
                    remaining_ms: 0,
                    interval_type: self.interval_type,
                    overtime_ms: self.compute_overtime_ms_at(now),
                },
            );
        }
        let end = match self.end_instant {
            Some(end) => end,
            None => return TickAction::Stop,
        };
        if now < end {
            return TickAction::Tick(
                TimerTickPayload {
                    remaining_ms: end - now,
                    interval_type: self.interval_type,
                    overtime_ms: 0,
                },
            );
        }
        let interval_type = self.interval_type;
        let interval_id = match self.interval_id {
            Some(id) => id,
            None => return TickAction::Stop,
        };
        let planned = self.planned_duration_seconds;
        let keep_running = interval_type != IntervalType::Work && self.break_overtime_enabled;
        self.complete();
        if keep_running {
            self.state = TimerState::Running;
            self.enter_overtime_at(now);
        }
        TickAction::Complete {
            payload: TimerCompletePayload {
                interval_id,
                interval_type,
                completed_work_count: self.completed_work_count,
                overtime: keep_running,
            },
            planned_duration_seconds: planned,
        }
    }

    /// One poll of the tick loop now.
    pub fn tick(&mut self) -> (r: TickAction)
        requires
            old(self).wf(),
        ensures
            final(self).wf(),
            exists|now: u64| *final(self) == old(self).after_tick(now) && r == old(self).tick_action(now),
    {
        let now = self.now_ms();
        self.tick_at(now)
    }

    /// Cancels at `now` and says what is left to persist: the record and its
    /// elapsed seconds outside overtime, nothing in overtime (its record was
    /// already finalized as completed, and must not be finalized twice).
    pub fn cancel_record_at(&mut self, now: u64) -> (r: Result<Option<CancelledRecord>, TimerError>)
        requires
            old(self).wf(),
        ensures
            final(self).wf(),
            old(self).state == TimerState::Idle ==> r == Err::<Option<CancelledRecord>, TimerError>(
                TimerError::InvalidTransition,
            ) && *final(self) == *old(self),
            old(self).state != TimerState::Idle ==> *final(self) == old(self).cancelled(),
            old(self).state != TimerState::Idle && old(self).overtime ==> r == Ok::<
                Option<CancelledRecord>,
                TimerError,
            >(None),
            old(self).state != TimerState::Idle && !old(self).overtime ==> r == Ok::<
                Option<CancelledRecord>,
                TimerError,
            >(
                Some(
                    CancelledRecord {
                        interval_id: old(self).interval_id.unwrap(),
                        elapsed_seconds: old(self).elapsed_seconds_at(now),
                    },
                ),
            ),
    {
        let record = self.interval_id;
        let in_overtime = self.overtime;
        let elapsed_seconds = self.cancel_at(now)?;
        if in_overtime {
            return Ok(None);
        }
        match record {
            Some(interval_id) => Ok(Some(CancelledRecord { interval_id, elapsed_seconds })),
            None => Ok(None),
        }
    }
}

/// Refuses a duration of zero before anything else is done for a start.
pub fn check_duration(duration_seconds: u32) -> (r: Result<(), TimerError>)
    ensures
        duration_seconds == 0 ==> r == Err::<(), TimerError>(TimerError::InvalidArgument),
        duration_seconds > 0 ==> r == Ok::<(), TimerError>(()),
{
    if duration_seconds == 0 {
        Err(TimerError::InvalidArgument)
    } else {
        Ok(())
    }
}

/// Whether the stored break-overtime setting enables overtime: only the
/// value `true` does, and a missing setting does not.
pub fn overtime_setting_enabled(value: Option<String>) -> (r: bool)
    ensures
        r == (value.is_some() && value.unwrap()@ == "true"@),
{
    match value {
        Some(v) => v == "true".to_owned(),
        None => false,
    }
}

/// The state shared by the application's commands: the one timer session
/// and the database path.
pub struct AppState {
    pub timer: TimerInner,
    pub db_path: String,
}

impl AppState {
    /// A fresh idle timer for the database at `db_path`.
    pub fn new(db_path: String) -> (r: AppState)
        ensures
            r.timer.wf(),
            r.timer.is_fresh(),
            r.db_path == db_path,
    {
        AppState { timer: TimerInner::new(), db_path }
    }
}

} // verus!
