use pomodoro::engine::start_timer;
use pomodoro::models::{AppSettings, AppSettingsPatch, TimerPhase, TimerState};
use pomodoro::settings::{
    apply_settings_patch, apply_settings_to_idle_timer, ensure_remote_token, normalize_settings,
};

fn base_settings() -> AppSettings {
    AppSettings {
        focus_min: 25,
        short_break_min: 5,
        long_break_min: 15,
        long_break_every: 4,
        theme: "light".to_string(),
        sound_enabled: true,
        notifications_enabled: true,
        remote_control_enabled: false,
        remote_control_port: 48484,
        remote_control_token: "token".to_string(),
    }
}

fn empty_patch() -> AppSettingsPatch {
    AppSettingsPatch {
        focus_min: None,
        short_break_min: None,
        long_break_min: None,
        long_break_every: None,
        theme: None,
        sound_enabled: None,
        notifications_enabled: None,
        remote_control_enabled: None,
        remote_control_port: None,
        remote_control_token: None,
    }
}

#[test]
fn normalize_clamps_every_range() {
    let mut s = base_settings();
    s.focus_min = 0;
    s.short_break_min = 900;
    s.long_break_min = -4;
    s.long_break_every = 1;
    s.remote_control_port = 80;
    let n = normalize_settings(s);
    assert_eq!(n.focus_min, 1);
    assert_eq!(n.short_break_min, 60);
    assert_eq!(n.long_break_min, 1);
    assert_eq!(n.long_break_every, 2);
    assert_eq!(n.remote_control_port, 1024);
}

#[test]
fn normalize_pins_the_theme_to_its_two_values() {
    let mut s = base_settings();
    s.theme = "dark".to_string();
    assert_eq!(normalize_settings(s).theme, "dark");

    let mut s = base_settings();
    s.theme = "solarized".to_string();
    assert_eq!(normalize_settings(s).theme, "light");
}

#[test]
fn blank_tokens_are_replaced_by_fresh_ones() {
    let mut s = base_settings();
    s.remote_control_token = String::new();
    ensure_remote_token(&mut s);
    assert_eq!(s.remote_control_token.chars().count(), 32);
    assert!(s.remote_control_token.chars().all(|c| c.is_ascii_alphanumeric()));

    let mut s = base_settings();
    s.remote_control_token = "   ".to_string();
    ensure_remote_token(&mut s);
    assert_eq!(s.remote_control_token.chars().count(), 32);

    let mut s = base_settings();
    s.remote_control_token = "keepme".to_string();
    ensure_remote_token(&mut s);
    assert_eq!(s.remote_control_token, "keepme");
}

#[test]
fn patch_applies_present_fields_and_clamps() {
    let mut patch = empty_patch();
    patch.focus_min = Some(500);
    patch.remote_control_enabled = Some(true);
    patch.remote_control_port = Some(99999);
    let s = apply_settings_patch(base_settings(), patch);
    assert_eq!(s.focus_min, 180);
    assert!(s.remote_control_enabled);
    assert_eq!(s.remote_control_port, 65535);
    // Untouched fields stay.
    assert_eq!(s.short_break_min, 5);
    assert_eq!(s.remote_control_token, "token");
}

#[test]
fn patched_theme_is_trimmed_and_lowercased() {
    let mut patch = empty_patch();
    patch.theme = Some("  DARK  ".to_string());
    let s = apply_settings_patch(base_settings(), patch);
    assert_eq!(s.theme, "dark");

    let mut patch = empty_patch();
    patch.theme = Some("Bright".to_string());
    let s = apply_settings_patch(base_settings(), patch);
    assert_eq!(s.theme, "light");
}

#[test]
fn patching_the_token_blank_generates_a_new_one() {
    let mut patch = empty_patch();
    patch.remote_control_token = Some("  ".to_string());
    let s = apply_settings_patch(base_settings(), patch);
    assert_eq!(s.remote_control_token.chars().count(), 32);
}

#[test]
fn settings_change_resizes_only_an_idle_timer() {
    let settings = base_settings();
    let mut idle = TimerState::default_with_settings(&settings);
    let mut shorter = base_settings();
    shorter.focus_min = 10;
    apply_settings_to_idle_timer(&mut idle, &shorter);
    assert_eq!(idle.phase, TimerPhase::Focus);
    assert_eq!(idle.phase_total_seconds, 600);
    assert_eq!(idle.remaining_seconds, 600);
    assert_eq!(idle.started_at, None);

    let mut running = TimerState::default_with_settings(&settings);
    start_timer(&mut running, None, 0);
    let before = running.clone();
    apply_settings_to_idle_timer(&mut running, &shorter);
    assert_eq!(running, before);
}
