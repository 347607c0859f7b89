//! End-to-end scenarios for the timer engine.

use resty::engine::TimerService;
use resty::models::{SessionType, TimerPhase, TimerState, WorkSegment};

fn flat_engine() -> TimerService {
    TimerService::new(25, 5, false, false, Vec::new())
}

#[test]
fn advance_cycles_through_segments_in_order() {
    let plan = vec![
        WorkSegment { work_minutes: 1, break_minutes: 1, repeat: 2 },
        WorkSegment { work_minutes: 2, break_minutes: 2, repeat: 1 },
    ];
    let mut e = TimerService::new(25, 5, false, true, plan);
    assert_eq!((e.segment_index, e.segment_iteration), (0, 0));
    e.start_work(0);
    // Skipping Work begins the Break; skipping the Break advances the
    // ring. One full revolution has three cycles; run two revolutions.
    let expected = [(0, 1), (1, 0), (0, 0), (0, 1), (1, 0), (0, 0)];
    for step in expected {
        let r = e.skip(1).expect("skip of a running phase yields a session");
        assert!(r.1, "skipping Work asks for the break reminder");
        let r2 = e.skip(2).expect("skip of a running break yields a session");
        assert!(!r2.1, "skipping Break shows no reminder");
        assert_eq!((e.segment_index, e.segment_iteration), step);
    }
}

#[test]
fn remaining_never_exceeds_total_across_commands() {
    let mut e = flat_engine();
    assert!(e.remaining_seconds <= e.total_seconds);
    e.start_work(100);
    assert!(e.remaining_seconds <= e.total_seconds);
    e.tick(400);
    assert!(e.remaining_seconds <= e.total_seconds);
    e.pause(500);
    assert!(e.remaining_seconds <= e.total_seconds);
    e.resume(800);
    assert!(e.remaining_seconds <= e.total_seconds);
    e.extend(3);
    assert!(e.remaining_seconds <= e.total_seconds);
    e.skip(900);
    assert!(e.remaining_seconds <= e.total_seconds);
    e.stop();
    assert!(e.remaining_seconds <= e.total_seconds);
}

#[test]
fn pause_resume_without_elapsed_time_keeps_remaining() {
    let mut e = flat_engine();
    e.start_work(1000);
    e.tick(1100);
    assert_eq!(e.remaining_seconds, 1400);
    e.pause(1200);
    assert_eq!(e.remaining_seconds, 1300);
    e.resume(1200);
    assert_eq!(e.remaining_seconds, 1300);
    assert_eq!(e.phase_end_time, Some(2500), "the original deadline is restored");
}

#[test]
fn resume_after_long_pause_restores_frozen_distance() {
    let mut e = flat_engine();
    e.start_work(1000);
    e.pause(1200);
    let frozen = e.remaining_seconds;
    assert_eq!(frozen, 1300);
    // The pause lasted 4800 seconds; the new deadline still sits
    // exactly the frozen remaining time ahead of "now".
    e.resume(6000);
    assert_eq!(e.phase_end_time, Some(6000 + frozen as i64));
    assert_eq!(e.remaining_seconds, frozen);
}

#[test]
fn early_tick_changes_only_remaining() {
    let mut e = flat_engine();
    e.start_work(0);
    let (session, reminder) = e.tick(600);
    assert!(session.is_none());
    assert!(!reminder);
    assert_eq!(e.phase, TimerPhase::Work);
    assert_eq!(e.state, TimerState::Running);
    assert_eq!(e.remaining_seconds, 900);
    assert_eq!(e.total_seconds, 1500);
    assert_eq!(e.phase_end_time, Some(1500));
}

#[test]
fn skip_while_idle_is_a_no_op() {
    let mut e = flat_engine();
    assert!(e.skip(50).is_none());
    assert_eq!(e.phase, TimerPhase::Idle);
    assert_eq!(e.state, TimerState::Stopped);
    assert!(e.current_session_id.is_none());
}

#[test]
fn finished_work_starts_break_with_reminder() {
    let mut e = flat_engine();
    e.start_work(0);
    let placeholder = e.session_start_placeholder();
    let (session, reminder) = e.tick(1500);
    let session = session.expect("the finished phase produces a record");
    assert!(reminder, "the break reminder fires when Work chains into Break");
    assert_eq!(session.session_type, SessionType::Work);
    assert!(!session.is_skipped);
    assert_eq!(session.duration, 1500);
    assert_eq!(session.planned_duration, 1500);
    assert_eq!(session.id, placeholder.id, "the record replaces the placeholder");
    assert_eq!(e.phase, TimerPhase::Break);
    assert_eq!(e.state, TimerState::Running);
    assert_eq!(e.total_seconds, 300);
}

#[test]
fn suppressed_work_chains_back_into_work() {
    let mut e = flat_engine();
    e.suppress_breaks_for_hours(0, 2);
    assert_eq!(e.suppress_breaks_until, Some(7200));
    e.start_work(0);
    let (session, reminder) = e.tick(1500);
    assert!(session.is_some());
    assert!(!reminder, "no reminder while breaks are suppressed");
    assert_eq!(e.phase, TimerPhase::Work, "the break was bypassed");
    let info = e.get_info(1500);
    let next_break = info.next_break_time.expect("a running engine predicts its next break");
    assert!(next_break >= 7200, "the prediction honors the remaining suppression window");
}

#[test]
fn flat_prediction_steps_in_whole_work_lengths() {
    let mut e = flat_engine();
    e.suppress_breaks_for_hours(0, 2);
    e.start_work(0);
    // Deadline 1500, suppression until 7200: the gap of 5700 seconds
    // needs four whole 1500-second work lengths.
    let info = e.get_info(0);
    assert_eq!(info.next_break_time, Some(7500));
    assert_eq!(info.next_transition_time, Some(1500));
}

#[test]
fn third_cycle_uses_second_segment() {
    let plan = vec![
        WorkSegment { work_minutes: 50, break_minutes: 10, repeat: 2 },
        WorkSegment { work_minutes: 25, break_minutes: 5, repeat: 1 },
    ];
    let mut e = TimerService::new(25, 5, false, true, plan);
    let mut now = 0i64;
    e.start_work(now);
    for _ in 0..2 {
        assert_eq!(e.total_seconds, 3000, "the first segment works 50 minutes");
        now += 3000;
        let (_, reminder) = e.tick(now);
        assert!(reminder);
        assert_eq!(e.phase, TimerPhase::Break);
        assert_eq!(e.total_seconds, 600, "the first segment breaks 10 minutes");
        now += 600;
        e.tick(now);
        assert_eq!(e.phase, TimerPhase::Work);
    }
    assert_eq!((e.segment_index, e.segment_iteration), (1, 0));
    assert_eq!(e.total_seconds, 1500, "the third cycle works the second segment's 25 minutes");
    assert_eq!(e.break_duration, 5);
}

#[test]
fn display_and_suspend_pause_causes_stay_independent() {
    let mut e = flat_engine();
    e.start_work(0);
    e.handle_display_power_state(100, false);
    assert_eq!(e.state, TimerState::Paused);
    assert!(e.paused_due_to_display_off);
    assert!(!e.paused_due_to_system_suspend);
    // A suspend while already paused records nothing.
    e.handle_system_suspend(200);
    assert_eq!(e.state, TimerState::Paused);
    assert!(e.paused_due_to_display_off);
    assert!(!e.paused_due_to_system_suspend);
    // The display coming back resumes and clears its cause.
    e.handle_display_power_state(300, true);
    assert_eq!(e.state, TimerState::Running);
    assert!(!e.paused_due_to_display_off);
    // A spurious wake-up signal is a no-op: no suspend was recorded.
    e.handle_system_resume(400);
    assert_eq!(e.state, TimerState::Running);
    assert!(!e.paused_due_to_system_suspend);
}

#[test]
fn shrinking_the_plan_resets_the_cursor() {
    let plan = vec![
        WorkSegment { work_minutes: 1, break_minutes: 1, repeat: 1 },
        WorkSegment { work_minutes: 2, break_minutes: 2, repeat: 1 },
        WorkSegment { work_minutes: 3, break_minutes: 3, repeat: 1 },
    ];
    let mut e = TimerService::new(25, 5, false, true, plan);
    e.start_work(0);
    e.skip(1);
    e.skip(2);
    e.skip(3);
    e.skip(4);
    assert_eq!((e.segment_index, e.segment_iteration), (2, 0));
    let shorter = vec![WorkSegment { work_minutes: 7, break_minutes: 2, repeat: 1 }];
    e.update_timer_configuration(30, 6, true, shorter);
    assert_eq!((e.segment_index, e.segment_iteration), (0, 0));
    assert_eq!(e.work_duration, 7);
    assert_eq!(e.base_work_duration, 30);
}

#[test]
fn shrinking_a_repeat_count_resets_the_cursor() {
    let plan = vec![
        WorkSegment { work_minutes: 1, break_minutes: 1, repeat: 1 },
        WorkSegment { work_minutes: 2, break_minutes: 2, repeat: 3 },
    ];
    let mut e = TimerService::new(25, 5, false, true, plan);
    e.start_work(0);
    e.skip(1);
    e.skip(2);
    e.skip(3);
    e.skip(4);
    assert_eq!((e.segment_index, e.segment_iteration), (1, 1));
    // The index stays in range, but its segment's repeat count drops
    // below the current iteration: the cursor goes back to the
    // origin, not merely to the segment's first iteration.
    let reduced = vec![
        WorkSegment { work_minutes: 1, break_minutes: 1, repeat: 1 },
        WorkSegment { work_minutes: 2, break_minutes: 2, repeat: 1 },
    ];
    e.update_timer_configuration(25, 5, true, reduced);
    assert_eq!((e.segment_index, e.segment_iteration), (0, 0));
}

#[test]
fn starting_a_phase_clears_both_pause_causes() {
    let mut e = flat_engine();
    e.start_work(0);
    e.handle_system_suspend(100);
    assert_eq!(e.state, TimerState::Paused);
    assert!(e.paused_due_to_system_suspend);
    // The user starts a fresh phase by hand instead of waiting for
    // the wake-up signal: both automatic pause causes are forgotten.
    e.start_work(200);
    assert!(!e.paused_due_to_display_off);
    assert!(!e.paused_due_to_system_suspend);
    // A late wake-up signal therefore cannot resume anything: it
    // finds no recorded suspend cause.
    e.pause(300);
    e.handle_system_resume(400);
    assert_eq!(e.state, TimerState::Paused);
}
