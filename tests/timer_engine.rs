use pomo::timer::{
    check_duration, overtime_setting_enabled, AppState, CancelledRecord, IntervalType,
    TickAction, TimerError, TimerInner, TimerState,
};

// ── State machine ───────────────────────────────────────────

#[test]
fn new_timer_is_idle() {
    let timer = TimerInner::new();
    assert_eq!(timer.state, TimerState::Idle);
    assert_eq!(timer.completed_work_count, 0);
}

#[test]
fn idle_to_running() {
    let mut timer = TimerInner::new();
    timer.start(IntervalType::Work, 1500, 1).unwrap();
    assert_eq!(timer.state, TimerState::Running);
    assert_eq!(timer.interval_type, IntervalType::Work);
    assert_eq!(timer.planned_duration_seconds, 1500);
    assert_eq!(timer.interval_id, Some(1));
    assert!(timer.end_instant.is_some());
}

#[test]
fn running_to_paused() {
    let mut timer = TimerInner::new();
    timer.start(IntervalType::Work, 1500, 1).unwrap();
    timer.pause().unwrap();
    assert_eq!(timer.state, TimerState::Paused);
    assert!(timer.end_instant.is_none());
    assert!(timer.remaining_ms > 0);
}

#[test]
fn paused_to_running() {
    let mut timer = TimerInner::new();
    timer.start(IntervalType::Work, 1500, 1).unwrap();
    timer.pause().unwrap();
    timer.resume().unwrap();
    assert_eq!(timer.state, TimerState::Running);
    assert!(timer.end_instant.is_some());
}

#[test]
fn running_to_idle_on_cancel() {
    let mut timer = TimerInner::new();
    timer.start(IntervalType::Work, 1500, 1).unwrap();
    let elapsed = timer.cancel().unwrap();
    assert_eq!(timer.state, TimerState::Idle);
    // Timer just started so elapsed should be ~0
    assert!(elapsed <= 1);
}

#[test]
fn paused_to_idle_on_cancel() {
    let mut timer = TimerInner::new();
    timer.start(IntervalType::Work, 1500, 1).unwrap();
    timer.pause().unwrap();
    timer.cancel().unwrap();
    assert_eq!(timer.state, TimerState::Idle);
}

#[test]
fn cannot_start_when_running() {
    let mut timer = TimerInner::new();
    timer.start(IntervalType::Work, 1500, 1).unwrap();
    assert!(timer.start(IntervalType::Work, 1500, 2).is_err());
}

#[test]
fn cannot_start_when_paused() {
    let mut timer = TimerInner::new();
    timer.start(IntervalType::Work, 1500, 1).unwrap();
    timer.pause().unwrap();
    assert!(timer.start(IntervalType::Work, 1500, 2).is_err());
}

#[test]
fn cannot_pause_when_idle() {
    let mut timer = TimerInner::new();
    assert!(timer.pause().is_err());
}

#[test]
fn cannot_pause_when_paused() {
    let mut timer = TimerInner::new();
    timer.start(IntervalType::Work, 1500, 1).unwrap();
    timer.pause().unwrap();
    assert!(timer.pause().is_err());
}

#[test]
fn cannot_resume_when_idle() {
    let mut timer = TimerInner::new();
    assert!(timer.resume().is_err());
}

#[test]
fn cannot_resume_when_running() {
    let mut timer = TimerInner::new();
    timer.start(IntervalType::Work, 1500, 1).unwrap();
    assert!(timer.resume().is_err());
}

#[test]
fn cannot_cancel_when_idle() {
    let mut timer = TimerInner::new();
    assert!(timer.cancel().is_err());
}

// ── Completion and work count ───────────────────────────────

#[test]
fn work_completion_increments_count() {
    let mut timer = TimerInner::new();
    timer.start(IntervalType::Work, 25, 1).unwrap();
    timer.complete();
    assert_eq!(timer.completed_work_count, 1);
    assert_eq!(timer.state, TimerState::Idle);
    assert!(timer.interval_id.is_none());
}

#[test]
fn multiple_work_completions_accumulate() {
    let mut timer = TimerInner::new();
    for i in 1..=4 {
        timer.start(IntervalType::Work, 25, i64::from(i)).unwrap();
        timer.complete();
    }
    assert_eq!(timer.completed_work_count, 4);
}

#[test]
fn long_break_resets_work_count() {
    let mut timer = TimerInner::new();
    for i in 1..=4 {
        timer.start(IntervalType::Work, 25, i64::from(i)).unwrap();
        timer.complete();
    }
    assert_eq!(timer.completed_work_count, 4);

    timer.start(IntervalType::LongBreak, 15, 5).unwrap();
    timer.complete();
    assert_eq!(timer.completed_work_count, 0);
}

#[test]
fn short_break_does_not_change_count() {
    let mut timer = TimerInner::new();
    timer.start(IntervalType::Work, 25, 1).unwrap();
    timer.complete();
    assert_eq!(timer.completed_work_count, 1);

    timer.start(IntervalType::ShortBreak, 5, 2).unwrap();
    timer.complete();
    assert_eq!(timer.completed_work_count, 1);
}

#[test]
fn cancel_does_not_change_work_count() {
    let mut timer = TimerInner::new();
    timer.start(IntervalType::Work, 25, 1).unwrap();
    timer.cancel().unwrap();
    assert_eq!(timer.completed_work_count, 0);
}

// ── Status reporting ────────────────────────────────────────

#[test]
fn idle_status_has_zero_remaining() {
    let timer = TimerInner::new();
    let status = timer.status();
    assert_eq!(status.state, TimerState::Idle);
    assert_eq!(status.remaining_ms, 0);
}

#[test]
fn running_status_has_positive_remaining() {
    let mut timer = TimerInner::new();
    timer.start(IntervalType::Work, 1500, 1).unwrap();
    let status = timer.status();
    assert_eq!(status.state, TimerState::Running);
    assert!(status.remaining_ms > 0);
    assert_eq!(status.planned_duration_seconds, 1500);
}

#[test]
fn paused_status_preserves_remaining() {
    let mut timer = TimerInner::new();
    timer.start(IntervalType::Work, 1500, 1).unwrap();
    timer.pause().unwrap();
    let status = timer.status();
    assert_eq!(status.state, TimerState::Paused);
    assert!(status.remaining_ms > 0);
}

#[test]
fn interval_type_db_strings() {
    assert_eq!(IntervalType::Work.as_db_str(), "work");
    assert_eq!(IntervalType::ShortBreak.as_db_str(), "short_break");
    assert_eq!(IntervalType::LongBreak.as_db_str(), "long_break");
}

// ── Full cycles ─────────────────────────────────────────────

#[test]
fn full_work_cycle_start_complete() {
    let mut timer = TimerInner::new();
    assert_eq!(timer.state, TimerState::Idle);

    timer.start(IntervalType::Work, 1500, 1).unwrap();
    assert_eq!(timer.state, TimerState::Running);

    timer.complete();
    assert_eq!(timer.state, TimerState::Idle);
    assert_eq!(timer.completed_work_count, 1);
}

#[test]
fn full_cycle_with_pause_resume() {
    let mut timer = TimerInner::new();

    timer.start(IntervalType::Work, 1500, 1).unwrap();
    assert_eq!(timer.state, TimerState::Running);

    timer.pause().unwrap();
    assert_eq!(timer.state, TimerState::Paused);

    timer.resume().unwrap();
    assert_eq!(timer.state, TimerState::Running);

    timer.complete();
    assert_eq!(timer.state, TimerState::Idle);
    assert_eq!(timer.completed_work_count, 1);
}

#[test]
fn long_break_after_four_work_intervals() {
    let mut timer = TimerInner::new();
    let long_break_frequency: u32 = 4;

    for i in 0..long_break_frequency {
        timer
            .start(IntervalType::Work, 1500, i64::from(i) + 1)
            .unwrap();
        timer.complete();
    }

    assert_eq!(timer.completed_work_count, long_break_frequency);

    timer.start(IntervalType::LongBreak, 900, 5).unwrap();
    timer.complete();
    assert_eq!(timer.completed_work_count, 0);

    timer.start(IntervalType::Work, 1500, 6).unwrap();
    timer.complete();
    assert_eq!(timer.completed_work_count, 1);
}

// ── Overtime ────────────────────────────────────────────────

#[test]
fn new_timer_has_overtime_disabled() {
    let timer = TimerInner::new();
    assert!(!timer.overtime);
    assert!(!timer.break_overtime_enabled);
    assert!(timer.overtime_start.is_none());
}

#[test]
fn enter_overtime_sets_flag() {
    let mut timer = TimerInner::new();
    timer.state = TimerState::Running;
    timer.enter_overtime();
    assert!(timer.overtime);
    assert!(timer.overtime_start.is_some());
}

#[test]
fn cancel_during_overtime_resets_to_idle() {
    let mut timer = TimerInner::new();
    timer.start(IntervalType::ShortBreak, 300, 1).unwrap();
    timer.complete(); // Simulate break completion
    timer.state = TimerState::Running; // Re-enter for overtime
    timer.overtime = true;
    timer.overtime_start = Some(timer.now_ms());

    let elapsed = timer.cancel().unwrap();
    assert_eq!(timer.state, TimerState::Idle);
    assert!(!timer.overtime);
    assert!(timer.overtime_start.is_none());
    assert_eq!(elapsed, 0); // Overtime cancel returns 0
}

#[test]
fn cancel_during_overtime_does_not_change_work_count() {
    let mut timer = TimerInner::new();
    timer.start(IntervalType::Work, 25, 1).unwrap();
    timer.complete();
    assert_eq!(timer.completed_work_count, 1);

    timer.start(IntervalType::ShortBreak, 5, 2).unwrap();
    timer.complete();
    timer.state = TimerState::Running;
    timer.overtime = true;
    timer.overtime_start = Some(timer.now_ms());

    timer.cancel().unwrap();
    assert_eq!(timer.completed_work_count, 1); // Unchanged
}

#[test]
fn overtime_compute_ms_is_zero_when_not_overtime() {
    let timer = TimerInner::new();
    assert_eq!(timer.compute_overtime_ms(), 0);
}

#[test]
fn can_restart_after_cancel() {
    let mut timer = TimerInner::new();
    timer.start(IntervalType::Work, 1500, 1).unwrap();
    timer.cancel().unwrap();
    assert_eq!(timer.state, TimerState::Idle);

    timer.start(IntervalType::Work, 1500, 2).unwrap();
    assert_eq!(timer.state, TimerState::Running);
}

// ── Transitions on a controlled clock ───────────────────────

#[test]
fn start_then_status_reports_full_duration() {
    for d in [1u32, 25, 1500, u32::MAX] {
        let mut timer = TimerInner::new();
        timer.start_at(IntervalType::Work, d, 1, false, 1000).unwrap();
        let at_start = timer.status_at(1000);
        assert_eq!(at_start.remaining_ms, u64::from(d) * 1000);
        let soon = timer.status_at(1999);
        assert!(soon.remaining_ms > 0 && soon.remaining_ms <= u64::from(d) * 1000);
    }
}

#[test]
fn status_counts_down_to_zero_and_not_below() {
    let mut timer = TimerInner::new();
    timer.start_at(IntervalType::Work, 2, 1, false, 500).unwrap();
    assert_eq!(timer.status_at(1500).remaining_ms, 1000);
    assert_eq!(timer.status_at(2500).remaining_ms, 0);
    assert_eq!(timer.status_at(9000).remaining_ms, 0);
}

#[test]
fn pause_then_resume_keeps_remaining() {
    let mut timer = TimerInner::new();
    timer.start_at(IntervalType::Work, 1500, 1, false, 0).unwrap();
    let before = timer.status_at(10_000).remaining_ms;
    assert_eq!(before, 1_490_000);
    timer.pause_at(10_000).unwrap();
    assert_eq!(timer.status_at(60_000).remaining_ms, before);
    timer.resume_at(70_000).unwrap();
    assert_eq!(timer.status_at(70_000).remaining_ms, before);
    assert_eq!(timer.status_at(71_000).remaining_ms, before - 1000);
    assert_eq!(timer.end_instant, Some(70_000 + before));
}

#[test]
fn cancel_reports_whole_elapsed_seconds() {
    let mut timer = TimerInner::new();
    timer.start_at(IntervalType::Work, 1500, 1, false, 0).unwrap();
    assert_eq!(timer.cancel_at(999), Ok(0));

    timer.start_at(IntervalType::Work, 1500, 2, false, 0).unwrap();
    assert_eq!(timer.cancel_at(1999), Ok(1));

    timer.start_at(IntervalType::Work, 10, 3, false, 0).unwrap();
    assert_eq!(timer.cancel_at(600_000), Ok(10));

    timer.start_at(IntervalType::Work, 1500, 4, false, 0).unwrap();
    timer.pause_at(600_500).unwrap();
    assert_eq!(timer.cancel_at(900_000), Ok(600));
}

#[test]
fn illegal_transitions_leave_state_unchanged() {
    let mut timer = TimerInner::new();
    assert_eq!(timer.pause_at(5), Err(TimerError::InvalidTransition));
    assert_eq!(timer.resume_at(5), Err(TimerError::InvalidTransition));
    assert_eq!(timer.cancel_at(5), Err(TimerError::InvalidTransition));
    assert_eq!(timer.state, TimerState::Idle);
    assert_eq!(timer.interval_id, None);

    timer.start_at(IntervalType::Work, 60, 7, false, 0).unwrap();
    assert_eq!(
        timer.start_at(IntervalType::LongBreak, 5, 8, true, 10),
        Err(TimerError::InvalidTransition)
    );
    assert_eq!(timer.resume_at(10), Err(TimerError::InvalidTransition));
    assert_eq!(timer.state, TimerState::Running);
    assert_eq!(timer.interval_type, IntervalType::Work);
    assert_eq!(timer.interval_id, Some(7));
    assert!(!timer.break_overtime_enabled);
    assert_eq!(timer.end_instant, Some(60_000));
}

#[test]
fn scenario_start_pause_resume_complete() {
    let mut timer = TimerInner::new();
    timer.start_at(IntervalType::Work, 1500, 1, false, 0).unwrap();
    let s = timer.status_at(3);
    assert_eq!(s.state, TimerState::Running);
    assert_eq!(s.remaining_ms, 1_499_997);
    timer.pause_at(3).unwrap();
    let p = timer.status_at(20_000);
    assert_eq!(p.state, TimerState::Paused);
    assert_eq!(p.remaining_ms, 1_499_997);
    timer.resume_at(20_000).unwrap();
    let action = timer.tick_at(20_000 + 1_499_997);
    assert!(matches!(action, TickAction::Complete { .. }));
    assert_eq!(timer.completed_work_count, 1);
    assert_eq!(timer.state, TimerState::Idle);
}

#[test]
fn scenario_on_the_real_clock() {
    let mut timer = TimerInner::new();
    timer.start(IntervalType::Work, 1500, 1).unwrap();
    let s = timer.status();
    assert_eq!(s.state, TimerState::Running);
    assert!(s.remaining_ms > 1_499_000 && s.remaining_ms <= 1_500_000);
    timer.pause().unwrap();
    let p = timer.status();
    assert_eq!(p.state, TimerState::Paused);
    assert!(p.remaining_ms <= s.remaining_ms && s.remaining_ms - p.remaining_ms < 1000);
    timer.resume().unwrap();
    timer.complete();
    assert_eq!(timer.completed_work_count, 1);
    assert_eq!(timer.state, TimerState::Idle);
}

#[test]
fn work_count_saturates_at_its_largest_value() {
    let mut timer = TimerInner::new();
    timer.completed_work_count = u32::MAX;
    timer.start_at(IntervalType::Work, 1, 1, false, 0).unwrap();
    timer.complete();
    assert_eq!(timer.completed_work_count, u32::MAX);
}

// ── Tick loop ───────────────────────────────────────────────

#[test]
fn tick_stops_when_not_running() {
    let mut timer = TimerInner::new();
    assert_eq!(timer.tick_at(0), TickAction::Stop);
    timer.start_at(IntervalType::Work, 10, 1, false, 0).unwrap();
    timer.pause_at(100).unwrap();
    assert_eq!(timer.tick_at(200), TickAction::Stop);
    assert_eq!(timer.state, TimerState::Paused);
}

#[test]
fn tick_reports_remaining_before_deadline() {
    let mut timer = TimerInner::new();
    timer.start_at(IntervalType::Work, 10, 1, false, 0).unwrap();
    match timer.tick_at(250) {
        TickAction::Tick(p) => {
            assert_eq!(p.remaining_ms, 9750);
            assert_eq!(p.overtime_ms, 0);
            assert_eq!(p.interval_type, IntervalType::Work);
        }
        other => panic!("expected a tick, got {:?}", other),
    }
    match timer.tick_at(500) {
        TickAction::Tick(p) => assert_eq!(p.remaining_ms, 9500),
        other => panic!("expected a tick, got {:?}", other),
    }
    assert_eq!(timer.state, TimerState::Running);
}

#[test]
fn tick_completes_work_at_deadline() {
    let mut timer = TimerInner::new();
    timer.start_at(IntervalType::Work, 10, 42, true, 0).unwrap();
    match timer.tick_at(10_000) {
        TickAction::Complete { payload, planned_duration_seconds } => {
            assert_eq!(payload.interval_id, 42);
            assert_eq!(payload.interval_type, IntervalType::Work);
            assert_eq!(payload.completed_work_count, 1);
            assert!(!payload.overtime);
            assert_eq!(planned_duration_seconds, 10);
        }
        other => panic!("expected completion, got {:?}", other),
    }
    assert_eq!(timer.state, TimerState::Idle);
    assert_eq!(timer.interval_id, None);
    assert_eq!(timer.tick_at(10_250), TickAction::Stop);
}

#[test]
fn tick_enters_overtime_for_enabled_break() {
    let mut timer = TimerInner::new();
    timer.start_at(IntervalType::Work, 25, 1, false, 0).unwrap();
    timer.complete();
    timer.start_at(IntervalType::ShortBreak, 5, 2, true, 100_000).unwrap();
    match timer.tick_at(105_200) {
        TickAction::Complete { payload, planned_duration_seconds } => {
            assert_eq!(payload.interval_id, 2);
            assert_eq!(payload.interval_type, IntervalType::ShortBreak);
            assert_eq!(payload.completed_work_count, 1);
            assert!(payload.overtime);
            assert_eq!(planned_duration_seconds, 5);
        }
        other => panic!("expected completion, got {:?}", other),
    }
    assert_eq!(timer.state, TimerState::Running);
    assert!(timer.overtime);
    assert_eq!(timer.overtime_start, Some(105_200));
    assert_eq!(timer.end_instant, None);
    match timer.tick_at(106_000) {
        TickAction::Tick(p) => {
            assert_eq!(p.remaining_ms, 0);
            assert_eq!(p.overtime_ms, 800);
        }
        other => panic!("expected an overtime tick, got {:?}", other),
    }
    let status = timer.status_at(107_200);
    assert_eq!(status.remaining_ms, 0);
    assert_eq!(status.overtime_ms, 2000);
    assert_eq!(timer.cancel_at(200_000), Ok(0));
    assert_eq!(timer.completed_work_count, 1);
    assert_eq!(timer.state, TimerState::Idle);
}

#[test]
fn tick_without_overtime_setting_ends_break() {
    let mut timer = TimerInner::new();
    timer.start_at(IntervalType::LongBreak, 15, 3, false, 0).unwrap();
    match timer.tick_at(15_001) {
        TickAction::Complete { payload, .. } => {
            assert!(!payload.overtime);
            assert_eq!(payload.completed_work_count, 0);
        }
        other => panic!("expected completion, got {:?}", other),
    }
    assert_eq!(timer.state, TimerState::Idle);
}

// ── Command helpers ─────────────────────────────────────────

#[test]
fn zero_duration_is_rejected() {
    assert_eq!(check_duration(0), Err(TimerError::InvalidArgument));
    assert_eq!(check_duration(1), Ok(()));
}

#[test]
fn overtime_setting_requires_true() {
    assert!(overtime_setting_enabled(Some("true".to_string())));
    assert!(!overtime_setting_enabled(Some("false".to_string())));
    assert!(!overtime_setting_enabled(Some("TRUE".to_string())));
    assert!(!overtime_setting_enabled(None));
}

#[test]
fn cancel_record_names_the_interval_outside_overtime() {
    let mut timer = TimerInner::new();
    timer.start_at(IntervalType::Work, 1500, 9, false, 0).unwrap();
    assert_eq!(
        timer.cancel_record_at(600_000),
        Ok(Some(CancelledRecord { interval_id: 9, elapsed_seconds: 600 }))
    );
    assert_eq!(timer.interval_id, None);
    assert_eq!(timer.cancel_record_at(600_001), Err(TimerError::InvalidTransition));

    timer.start_at(IntervalType::ShortBreak, 5, 10, true, 0).unwrap();
    timer.tick_at(5000);
    assert!(timer.overtime);
    assert_eq!(timer.cancel_record_at(9000), Ok(None));
}

#[test]
fn app_state_starts_idle() {
    let state = AppState::new("data/pomo.db".to_string());
    assert_eq!(state.db_path, "data/pomo.db");
    assert_eq!(state.timer.state, TimerState::Idle);
    assert_eq!(state.timer.completed_work_count, 0);
}

#[test]
fn deadline_saturates_at_the_end_of_the_clock() {
    let mut timer = TimerInner::new();
    timer.start_at(IntervalType::Work, 10, 1, false, u64::MAX - 5).unwrap();
    assert_eq!(timer.end_instant, Some(u64::MAX));
    assert_eq!(timer.status_at(u64::MAX - 5).remaining_ms, 5);
}

#[test]
fn resume_in_overtime_sets_no_deadline() {
    let mut timer = TimerInner::new();
    timer.start_at(IntervalType::LongBreak, 1, 1, true, 0).unwrap();
    timer.tick_at(1000);
    assert!(timer.overtime);
    timer.pause_at(1500).unwrap();
    assert_eq!(timer.state, TimerState::Paused);
    timer.resume_at(2000).unwrap();
    assert_eq!(timer.state, TimerState::Running);
    assert_eq!(timer.end_instant, None);
    assert_eq!(timer.status_at(3000).overtime_ms, 2000);
}
