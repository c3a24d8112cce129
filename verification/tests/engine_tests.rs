use pomodoro::engine::{
    advance_timer, complete_and_advance, pause_timer, record_session, refresh_remaining,
    resume_timer, set_context, skip_timer, start_timer, tick, toggle_timer, TickOutcome,
};
use pomodoro::models::{
    AppSettings, ProjectPatch, StartTimerRequest, TimerPhase, TimerState,
};

fn sample_settings() -> AppSettings {
    AppSettings {
        focus_min: 25,
        short_break_min: 5,
        long_break_min: 15,
        long_break_every: 4,
        theme: "light".to_string(),
        sound_enabled: true,
        notifications_enabled: true,
        remote_control_enabled: false,
        remote_control_port: 48484,
        remote_control_token: "testtoken".to_string(),
    }
}

#[test]
fn advances_to_long_break_every_fourth_cycle() {
    let settings = sample_settings();
    let mut timer = TimerState::default_with_settings(&settings);

    timer.phase = TimerPhase::Focus;
    timer.cycle_index = 3;
    advance_timer(&mut timer, &settings);

    assert_eq!(timer.phase, TimerPhase::LongBreak);
    assert_eq!(timer.cycle_index, 4);
}

#[test]
fn early_focus_completions_advance_to_short_break() {
    let settings = sample_settings();
    for cycle in [0i64, 1, 2] {
        let mut timer = TimerState::default_with_settings(&settings);
        timer.cycle_index = cycle;
        advance_timer(&mut timer, &settings);
        assert_eq!(timer.phase, TimerPhase::ShortBreak);
        assert_eq!(timer.cycle_index, cycle + 1);
    }
}

#[test]
fn full_focus_phase_completes_into_short_break() {
    let settings = sample_settings();
    let mut timer = TimerState::default_with_settings(&settings);

    start_timer(&mut timer, None, 0);
    assert_eq!(timer.remaining_seconds, 1500);
    assert!(timer.is_running);
    assert_eq!(timer.target_ends_at, Some(1500));
    assert_eq!(timer.started_at, Some(0));

    let outcome = tick(&mut timer, 1500);
    assert_eq!(outcome, TickOutcome::Boundary);
    assert_eq!(timer.remaining_seconds, 0);

    let (record, event) = complete_and_advance(&mut timer, &settings, true, 1500, 1);
    assert_eq!(record.phase, TimerPhase::Focus);
    assert!(record.completed);
    assert_eq!(record.duration_sec, 1500);
    assert_eq!(record.started_at, 0);
    assert_eq!(record.ended_at, 1500);
    assert_eq!(event.completed_phase, TimerPhase::Focus);
    assert_eq!(event.next_phase, TimerPhase::ShortBreak);

    assert_eq!(timer.phase, TimerPhase::ShortBreak);
    assert_eq!(timer.remaining_seconds, 300);
    assert_eq!(timer.phase_total_seconds, 300);
    assert!(!timer.is_running);
    assert_eq!(timer.interruptions, 0);
}

#[test]
fn skip_records_elapsed_time_as_incomplete() {
    let settings = sample_settings();
    let mut timer = TimerState::default_with_settings(&settings);

    start_timer(&mut timer, None, 0);
    // 100 seconds in, 1400 remain of the 1500-second focus phase.
    let (record, event) = skip_timer(&mut timer, &settings, 100, 7);

    assert_eq!(record.id, 7);
    assert!(!record.completed);
    assert_eq!(record.duration_sec, 100);
    assert_eq!(record.phase, TimerPhase::Focus);
    assert_eq!(event.completed_phase, TimerPhase::Focus);
    assert_eq!(event.next_phase, TimerPhase::ShortBreak);
    assert_eq!(timer.phase, TimerPhase::ShortBreak);
    assert_eq!(timer.remaining_seconds, 300);
}

#[test]
fn boundary_is_recorded_only_once_under_racing_ticks() {
    let settings = sample_settings();
    let mut timer = TimerState::default_with_settings(&settings);

    start_timer(&mut timer, None, 0);
    let first = tick(&mut timer, 1500);
    assert_eq!(first, TickOutcome::Boundary);
    let (_record, _event) = complete_and_advance(&mut timer, &settings, true, 1500, 1);

    // A racing second wake-up for the same instant finds the advanced,
    // idle state and records nothing.
    let before = timer.clone();
    let second = tick(&mut timer, 1500);
    assert_eq!(second, TickOutcome::Idle);
    assert_eq!(timer, before);
}

#[test]
fn pause_during_focus_counts_one_interruption() {
    let settings = sample_settings();
    let mut timer = TimerState::default_with_settings(&settings);

    start_timer(&mut timer, None, 0);
    pause_timer(&mut timer, 10);
    assert_eq!(timer.interruptions, 1);
    assert!(!timer.is_running);
    assert_eq!(timer.target_ends_at, None);
    assert_eq!(timer.remaining_seconds, 1490);

    // Pausing an already idle timer counts nothing.
    pause_timer(&mut timer, 20);
    assert_eq!(timer.interruptions, 1);
}

#[test]
fn pause_during_break_leaves_interruptions_unchanged() {
    let settings = sample_settings();
    let mut timer = TimerState::default_with_settings(&settings);

    start_timer(&mut timer, None, 0);
    let _ = skip_timer(&mut timer, &settings, 100, 1);
    assert_eq!(timer.phase, TimerPhase::ShortBreak);
    assert_eq!(timer.interruptions, 0);

    start_timer(&mut timer, None, 200);
    pause_timer(&mut timer, 230);
    assert_eq!(timer.interruptions, 0);
}

#[test]
fn any_advance_resets_interruptions() {
    let settings = sample_settings();
    let mut timer = TimerState::default_with_settings(&settings);

    start_timer(&mut timer, None, 0);
    pause_timer(&mut timer, 10);
    resume_timer(&mut timer, None, 20);
    pause_timer(&mut timer, 30);
    assert_eq!(timer.interruptions, 2);

    advance_timer(&mut timer, &settings);
    assert_eq!(timer.interruptions, 0);
}

#[test]
fn remaining_stays_within_phase_bounds() {
    let settings = sample_settings();
    let mut timer = TimerState::default_with_settings(&settings);

    start_timer(&mut timer, None, 0);
    // Long past the deadline the countdown clamps at zero...
    let outcome = tick(&mut timer, 50_000);
    assert_eq!(outcome, TickOutcome::Boundary);
    assert_eq!(timer.remaining_seconds, 0);

    // ...and a clock reading before the start clamps at the full phase.
    timer.target_ends_at = Some(1500);
    refresh_remaining(&mut timer, 0);
    assert_eq!(timer.remaining_seconds, 1500);
}

#[test]
fn tick_reports_whether_the_countdown_moved() {
    let settings = sample_settings();
    let mut timer = TimerState::default_with_settings(&settings);

    assert_eq!(tick(&mut timer, 0), TickOutcome::Idle);

    start_timer(&mut timer, None, 0);
    assert_eq!(tick(&mut timer, 1), TickOutcome::Running(true));
    assert_eq!(timer.remaining_seconds, 1499);
    assert_eq!(tick(&mut timer, 1), TickOutcome::Running(false));
}

#[test]
fn toggle_alternates_between_running_and_paused() {
    let settings = sample_settings();
    let mut timer = TimerState::default_with_settings(&settings);

    toggle_timer(&mut timer, 0);
    assert!(timer.is_running);
    toggle_timer(&mut timer, 5);
    assert!(!timer.is_running);
    assert_eq!(timer.interruptions, 1);
    assert_eq!(timer.remaining_seconds, 1495);
}

#[test]
fn start_resets_an_exhausted_countdown() {
    let settings = sample_settings();
    let mut timer = TimerState::default_with_settings(&settings);
    timer.remaining_seconds = 0;

    start_timer(&mut timer, None, 1000);
    assert_eq!(timer.remaining_seconds, 1500);
    assert_eq!(timer.started_at, Some(1000));
    assert_eq!(timer.target_ends_at, Some(2500));
}

#[test]
fn context_patch_has_tri_state_semantics() {
    let settings = sample_settings();
    let mut timer = TimerState::default_with_settings(&settings);

    set_context(
        &mut timer,
        StartTimerRequest { project_id: ProjectPatch::Assign(5), tag_ids: Some(vec![1, 2]) },
        0,
    );
    assert_eq!(timer.current_project_id, Some(5));
    assert_eq!(timer.current_tag_ids, vec![1, 2]);

    // Absent fields change nothing.
    set_context(
        &mut timer,
        StartTimerRequest { project_id: ProjectPatch::Keep, tag_ids: None },
        0,
    );
    assert_eq!(timer.current_project_id, Some(5));
    assert_eq!(timer.current_tag_ids, vec![1, 2]);

    // A present-null project clears it; present tags replace wholesale.
    set_context(
        &mut timer,
        StartTimerRequest { project_id: ProjectPatch::Clear, tag_ids: Some(vec![9]) },
        0,
    );
    assert_eq!(timer.current_project_id, None);
    assert_eq!(timer.current_tag_ids, vec![9]);
}

#[test]
fn records_for_breaks_carry_no_context() {
    let settings = sample_settings();
    let mut timer = TimerState::default_with_settings(&settings);
    start_timer(
        &mut timer,
        Some(StartTimerRequest {
            project_id: ProjectPatch::Assign(3),
            tag_ids: Some(vec![4, 5]),
        }),
        0,
    );
    let (focus_record, _) = skip_timer(&mut timer, &settings, 60, 1);
    assert_eq!(focus_record.project_id, Some(3));
    assert_eq!(focus_record.tag_ids, vec![4, 5]);

    // The context survives the advance, but a break record drops it.
    start_timer(&mut timer, None, 100);
    let (break_record, _) = skip_timer(&mut timer, &settings, 160, 2);
    assert_eq!(break_record.phase, TimerPhase::ShortBreak);
    assert_eq!(break_record.project_id, None);
    assert!(break_record.tag_ids.is_empty());
}

#[test]
fn record_started_at_falls_back_to_elapsed_before_end() {
    let settings = sample_settings();
    let mut timer = TimerState::default_with_settings(&settings);
    timer.remaining_seconds = 1400;

    // Never started: the start instant is reconstructed from the end.
    let record = record_session(&timer, false, 5000, 1);
    assert_eq!(record.duration_sec, 100);
    assert_eq!(record.started_at, 4900);

    // A zero-length session starts at its end instant.
    timer.remaining_seconds = 1500;
    let record = record_session(&timer, false, 5000, 2);
    assert_eq!(record.duration_sec, 0);
    assert_eq!(record.started_at, 5000);
}
