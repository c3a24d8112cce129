use pomodoro::engine::normalize_timer_state;
use pomodoro::http::{
    content_length, header_terminator, header_value, parse_query_param, parse_usize,
    response_head, split_path_query, HttpHeader, HttpRequest,
};
use pomodoro::models::{AppSettings, TimerPhase, TimerState};
use pomodoro::text::format_seconds;

#[test]
fn header_terminator_finds_the_first_blank_line() {
    let buf = b"GET / HTTP/1.1\r\nHost: x\r\n\r\nbody\r\n\r\n";
    assert_eq!(header_terminator(buf, buf.len()), Some(27));
    assert_eq!(header_terminator(b"GET / HTTP/1.1\r\n", 16), None);
    assert_eq!(header_terminator(b"", 0), None);

    // Only the filled part counts.
    assert_eq!(header_terminator(buf, 10), None);
}

#[test]
fn header_lookup_ignores_ascii_case_and_takes_the_first() {
    let headers = vec![
        HttpHeader { name: "Host".to_string(), value: b"a".to_vec() },
        HttpHeader { name: "X-Pomodoro-Token".to_string(), value: b"first".to_vec() },
        HttpHeader { name: "x-pomodoro-token".to_string(), value: b"second".to_vec() },
    ];
    assert_eq!(
        header_value(&headers, "x-POMODORO-tokeN").map(|v| v.as_slice()),
        Some(b"first".as_slice())
    );
    assert_eq!(header_value(&headers, "Content-Length"), None);
}

#[test]
fn content_length_reads_the_announced_number_or_zero() {
    let req = |value: &[u8]| HttpRequest {
        method: "POST".to_string(),
        path: "/api/start".to_string(),
        headers: vec![HttpHeader { name: "Content-Length".to_string(), value: value.to_vec() }],
        header_len: 0,
    };
    assert_eq!(content_length(&req(b"42")), 42);
    assert_eq!(content_length(&req(b"+7")), 7);
    assert_eq!(content_length(&req(b"oops")), 0);
    assert_eq!(content_length(&req(b"")), 0);
    assert_eq!(content_length(&req(b"\xff\xfe")), 0);

    let none = HttpRequest {
        method: "GET".to_string(),
        path: "/".to_string(),
        headers: vec![],
        header_len: 0,
    };
    assert_eq!(content_length(&none), 0);
}

#[test]
fn parse_usize_accepts_digits_with_an_optional_plus() {
    assert_eq!(parse_usize("0"), Some(0));
    assert_eq!(parse_usize("123"), Some(123));
    assert_eq!(parse_usize("+42"), Some(42));
    assert_eq!(parse_usize(""), None);
    assert_eq!(parse_usize("+"), None);
    assert_eq!(parse_usize("-1"), None);
    assert_eq!(parse_usize("12a"), None);
    assert_eq!(parse_usize("18446744073709551615"), Some(usize::MAX));
    assert_eq!(parse_usize("18446744073709551616"), None);
}

#[test]
fn query_parameters_split_on_ampersands() {
    assert_eq!(
        parse_query_param("a=1&token=xyz", "token"),
        Some("xyz".to_string())
    );
    assert_eq!(parse_query_param("token", "token"), Some(String::new()));
    assert_eq!(parse_query_param("token=a&token=b", "token"), Some("a".to_string()));
    assert_eq!(parse_query_param("a=1&b=2", "token"), None);
    assert_eq!(parse_query_param("", "token"), None);
    assert_eq!(parse_query_param("token=v=w", "token"), Some("v=w".to_string()));
}

#[test]
fn path_and_query_split_at_the_first_question_mark() {
    assert_eq!(split_path_query("/x?a=1"), ("/x", "a=1"));
    assert_eq!(split_path_query("/x"), ("/x", ""));
    assert_eq!(split_path_query("/x?a=1?b=2"), ("/x", "a=1?b=2"));
    assert_eq!(split_path_query(""), ("", ""));
}

#[test]
fn response_head_carries_the_fixed_headers() {
    let head = response_head("200 OK", "application/json; charset=utf-8", 2);
    assert!(head.starts_with("HTTP/1.1 200 OK\r\n"));
    assert!(head.contains("Content-Type: application/json; charset=utf-8\r\n"));
    assert!(head.contains("Content-Length: 2\r\n"));
    assert!(head.contains("Connection: close\r\n"));
    assert!(head.contains("Access-Control-Allow-Origin: *\r\n"));
    assert!(head.contains("X-Content-Type-Options: nosniff\r\n"));
    assert!(head.ends_with("\r\n\r\n"));

    let long = response_head("404 Not Found", "text/plain; charset=utf-8", 123456);
    assert!(long.starts_with("HTTP/1.1 404 Not Found\r\n"));
    assert!(long.contains("Content-Length: 123456\r\n"));
}

#[test]
fn clock_text_pads_to_two_digits() {
    assert_eq!(format_seconds(0), "00:00");
    assert_eq!(format_seconds(65), "01:05");
    assert_eq!(format_seconds(1500), "25:00");
    assert_eq!(format_seconds(10800), "180:00");
    assert_eq!(format_seconds(59), "00:59");
}

#[test]
fn phase_labels_and_db_values_are_fixed() {
    assert_eq!(TimerPhase::Focus.label(), "Focus");
    assert_eq!(TimerPhase::ShortBreak.label(), "Short break");
    assert_eq!(TimerPhase::LongBreak.label(), "Long break");
    assert_eq!(TimerPhase::Focus.as_db_value(), "focus");
    assert_eq!(TimerPhase::ShortBreak.as_db_value(), "short_break");
    assert_eq!(TimerPhase::LongBreak.as_db_value(), "long_break");
}

#[test]
fn loaded_timers_are_normalized_against_the_settings() {
    let settings = AppSettings {
        focus_min: 25,
        short_break_min: 5,
        long_break_min: 15,
        long_break_every: 4,
        theme: "light".to_string(),
        sound_enabled: true,
        notifications_enabled: true,
        remote_control_enabled: false,
        remote_control_port: 48484,
        remote_control_token: "t".to_string(),
    };
    let mut stored = TimerState::default_with_settings(&settings);
    stored.remaining_seconds = 90_000;
    stored.is_running = true;
    stored.target_ends_at = Some(123);
    stored.cycle_index = -4;
    stored.interruptions = -1;

    let timer = normalize_timer_state(stored, &settings);
    assert_eq!(timer.phase_total_seconds, 1500);
    assert_eq!(timer.remaining_seconds, 1500);
    assert!(!timer.is_running);
    assert_eq!(timer.target_ends_at, None);
    assert_eq!(timer.cycle_index, 0);
    assert_eq!(timer.interruptions, 0);

    // An in-range countdown is kept as it is.
    let mut stored = TimerState::default_with_settings(&settings);
    stored.remaining_seconds = 1200;
    let timer = normalize_timer_state(stored, &settings);
    assert_eq!(timer.remaining_seconds, 1200);
}
