use pomodoro::models::{AppSettings, TimerPhase, TimerState};
use pomodoro::remote::{
    handle_request, plan_remote, predict_next_phase, remote_html, ApiEndpoint, RemoteAction,
    RouteOutcome,
};

fn settings_with_cadence(long_break_every: i64) -> AppSettings {
    AppSettings {
        focus_min: 25,
        short_break_min: 5,
        long_break_min: 15,
        long_break_every,
        theme: "light".to_string(),
        sound_enabled: true,
        notifications_enabled: true,
        remote_control_enabled: true,
        remote_control_port: 48484,
        remote_control_token: "secret".to_string(),
    }
}

#[test]
fn api_requires_the_exact_token() {
    let ok = b"GET /api/state HTTP/1.1\r\nX-Pomodoro-Token: secret\r\n\r\n";
    assert_eq!(
        handle_request(ok, true, "secret"),
        RouteOutcome::Api(ApiEndpoint::State)
    );

    let wrong = b"GET /api/state HTTP/1.1\r\nX-Pomodoro-Token: nope\r\n\r\n";
    assert_eq!(handle_request(wrong, true, "secret"), RouteOutcome::Unauthorized);

    let missing = b"GET /api/state HTTP/1.1\r\n\r\n";
    assert_eq!(
        handle_request(missing, true, "secret"),
        RouteOutcome::Unauthorized
    );
}

#[test]
fn query_token_works_but_the_header_wins() {
    let via_query = b"POST /api/toggle?token=secret HTTP/1.1\r\n\r\n";
    assert_eq!(
        handle_request(via_query, true, "secret"),
        RouteOutcome::Api(ApiEndpoint::Toggle)
    );

    let header_overrides = b"POST /api/toggle?token=secret HTTP/1.1\r\nX-Pomodoro-Token: bad\r\n\r\n";
    assert_eq!(
        handle_request(header_overrides, true, "secret"),
        RouteOutcome::Unauthorized
    );
}

#[test]
fn disabled_surface_serves_nothing() {
    let api = b"GET /api/state HTTP/1.1\r\nX-Pomodoro-Token: secret\r\n\r\n";
    assert_eq!(handle_request(api, false, "secret"), RouteOutcome::Disabled);

    let page = b"GET / HTTP/1.1\r\n\r\n";
    assert_eq!(handle_request(page, false, "secret"), RouteOutcome::Disabled);

    // Even a preflight gets the disabled 404: nothing leaks while off.
    let preflight = b"OPTIONS /api/state HTTP/1.1\r\n\r\n";
    assert_eq!(
        handle_request(preflight, false, "secret"),
        RouteOutcome::Disabled
    );

    // Enabled again, the preflight answers 204 without a token.
    assert_eq!(
        handle_request(preflight, true, "secret"),
        RouteOutcome::Preflight
    );
}

#[test]
fn control_page_needs_no_token() {
    let page = b"GET / HTTP/1.1\r\n\r\n";
    assert_eq!(handle_request(page, true, "secret"), RouteOutcome::ControlPage);
    assert!(remote_html().contains("Pomodoro Remote"));
}

#[test]
fn all_api_routes_are_reachable_and_the_rest_is_not_found() {
    let cases: [(&[u8], ApiEndpoint); 6] = [
        (b"GET /api/state HTTP/1.1\r\nX-Pomodoro-Token: secret\r\n\r\n", ApiEndpoint::State),
        (b"POST /api/toggle HTTP/1.1\r\nX-Pomodoro-Token: secret\r\n\r\n", ApiEndpoint::Toggle),
        (b"POST /api/start HTTP/1.1\r\nX-Pomodoro-Token: secret\r\n\r\n", ApiEndpoint::Start),
        (b"POST /api/resume HTTP/1.1\r\nX-Pomodoro-Token: secret\r\n\r\n", ApiEndpoint::Resume),
        (b"POST /api/pause HTTP/1.1\r\nX-Pomodoro-Token: secret\r\n\r\n", ApiEndpoint::Pause),
        (b"POST /api/skip HTTP/1.1\r\nX-Pomodoro-Token: secret\r\n\r\n", ApiEndpoint::Skip),
    ];
    for (raw, endpoint) in cases {
        assert_eq!(handle_request(raw, true, "secret"), RouteOutcome::Api(endpoint));
    }

    let unknown = b"POST /api/reset HTTP/1.1\r\nX-Pomodoro-Token: secret\r\n\r\n";
    assert_eq!(handle_request(unknown, true, "secret"), RouteOutcome::NotFound);

    // The method matters: the state route only answers GET.
    let wrong_method = b"POST /api/state HTTP/1.1\r\nX-Pomodoro-Token: secret\r\n\r\n";
    assert_eq!(
        handle_request(wrong_method, true, "secret"),
        RouteOutcome::NotFound
    );
}

#[test]
fn malformed_heads_are_bad_requests() {
    assert_eq!(
        handle_request(b"not an http request", true, "secret"),
        RouteOutcome::BadRequest
    );
    // A head that never completes is no request either.
    assert_eq!(
        handle_request(b"GET /api/state HTTP/1.1\r\n", true, "secret"),
        RouteOutcome::BadRequest
    );
}

#[test]
fn listener_plan_keeps_exactly_one_listener() {
    // Disabling always stops everything.
    assert_eq!(plan_remote(None, false, 4000), RemoteAction::StopAll);
    assert_eq!(plan_remote(Some(4000), false, 4000), RemoteAction::StopAll);

    // A matching listener is left alone; anything else is replaced.
    assert_eq!(plan_remote(Some(4000), true, 4000), RemoteAction::Keep);
    assert_eq!(plan_remote(Some(4000), true, 5000), RemoteAction::Replace(5000));
    assert_eq!(plan_remote(None, true, 5000), RemoteAction::Replace(5000));
}

#[test]
fn next_phase_prediction_matches_the_advance_rule() {
    let settings = settings_with_cadence(4);
    let mut timer = TimerState::default_with_settings(&settings);

    timer.cycle_index = 3;
    assert_eq!(predict_next_phase(&timer, &settings), TimerPhase::LongBreak);
    timer.cycle_index = 1;
    assert_eq!(predict_next_phase(&timer, &settings), TimerPhase::ShortBreak);

    timer.phase = TimerPhase::ShortBreak;
    assert_eq!(predict_next_phase(&timer, &settings), TimerPhase::Focus);
    timer.phase = TimerPhase::LongBreak;
    assert_eq!(predict_next_phase(&timer, &settings), TimerPhase::Focus);
}
