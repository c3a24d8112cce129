//! The remote-control surface: routing a parsed request to an outcome
//! (auth included), predicting the next phase for the state payload,
//! deciding the listener lifecycle, and the static control page.

use vstd::prelude::*;
use vstd::utf8::{decode_utf8, valid_utf8};

use crate::engine::spec_next_phase;
use crate::http::{
    HttpHeader, HttpRequest, first_header_value, http_head_of, idx_of, parse_http_request,
    parse_query_param, spec_query_param, split_path_query, utf8_to_string,
};
use crate::models::{AppSettings, TimerPhase, TimerState, valid_settings, wf_timer};
use crate::text::{eq_ignore_case, str_eq, str_eq_ignore_case};

verus! {

/// The operations the authenticated surface exposes.
#[derive(Clone, Copy, Debug, PartialEq, Eq, Structural)]
pub enum ApiEndpoint {
    State,
    Toggle,
    Start,
    Resume,
    Pause,
    Skip,
}

/// Where a request ends up.
#[derive(Clone, Copy, Debug, PartialEq, Eq, Structural)]
pub enum RouteOutcome {
    /// No complete, well-formed request head: 400, nothing happens.
    BadRequest,
    /// A CORS preflight: 204, no authentication.
    Preflight,
    /// Remote control is switched off: 404 for everything.
    Disabled,
    /// The static control page: 200, no authentication.
    ControlPage,
    /// Missing or wrong token: 401, nothing happens.
    Unauthorized,
    /// An authenticated request for a route that does not exist: 404.
    NotFound,
    /// An authenticated API call to execute.
    Api(ApiEndpoint),
}

/// The path part of a request target.
pub open spec fn spec_path_of(target: Seq<char>) -> Seq<char> {
    target.subrange(0, idx_of(target, '?'))
}

/// The query part of a request target (empty without a question mark).
pub open spec fn spec_query_of(target: Seq<char>) -> Seq<char> {
    if idx_of(target, '?') < target.len() {
        target.subrange(idx_of(target, '?') + 1, target.len() as int)
    } else {
        Seq::<char>::empty()
    }
}

/// The token a query string carries, empty when absent.
pub open spec fn spec_query_token(q: Seq<char>) -> Seq<char> {
    match spec_query_param(q, "token"@) {
        Some(v) => v,
        None => Seq::<char>::empty(),
    }
}

/// The token a request presents: the first `X-Pomodoro-Token` header when
/// it decodes as UTF-8 (header wins over query), else the query's
/// `token` parameter, else empty.
pub open spec fn spec_token_got(hs: Seq<HttpHeader>, q: Seq<char>) -> Seq<char> {
    match first_header_value(hs, "X-Pomodoro-Token"@) {
        Some(bytes) => if valid_utf8(bytes) {
            decode_utf8(bytes)
        } else {
            spec_query_token(q)
        },
        None => spec_query_token(q),
    }
}

/// The routing rule of the control surface. A disabled surface answers
/// 404 to everything; preflights answer 204, unauthenticated; the
/// control page is served without a token; every `/api/*` route demands
/// the exact token; what remains is 404.
pub open spec fn spec_route(
    method: Seq<char>,
    target: Seq<char>,
    headers: Seq<HttpHeader>,
    enabled: bool,
    expected: Seq<char>,
) -> RouteOutcome {
    let path = spec_path_of(target);
    let query = spec_query_of(target);
    if !enabled {
        RouteOutcome::Disabled
    } else if eq_ignore_case(method, "OPTIONS"@) {
        RouteOutcome::Preflight
    } else if eq_ignore_case(method, "GET"@) && path == "/"@ {
        RouteOutcome::ControlPage
    } else if spec_token_got(headers, query) != expected {
        RouteOutcome::Unauthorized
    } else if method == "GET"@ && path == "/api/state"@ {
        RouteOutcome::Api(ApiEndpoint::State)
    } else if method == "POST"@ && path == "/api/toggle"@ {
        RouteOutcome::Api(ApiEndpoint::Toggle)
    } else if method == "POST"@ && path == "/api/start"@ {
        RouteOutcome::Api(ApiEndpoint::Start)
    } else if method == "POST"@ && path == "/api/pause"@ {
        RouteOutcome::Api(ApiEndpoint::Pause)
    } else if method == "POST"@ && path == "/api/resume"@ {
        RouteOutcome::Api(ApiEndpoint::Resume)
    } else if method == "POST"@ && path == "/api/skip"@ {
        RouteOutcome::Api(ApiEndpoint::Skip)
    } else {
        RouteOutcome::NotFound
    }
}

fn query_token(query: &str) -> (r: String)
    ensures
        r@ == spec_query_token(query@),
{
    match parse_query_param(query, "token") {
        Some(v) => v,
        None => String::new(),
    }
}

/// Routes one parsed request under the current settings snapshot. A
/// missing or wrong token answers 401 and reaches no operation; only an
/// exact token match reaches the API.
pub fn route_request(req: &HttpRequest, enabled: bool, expected_token: &str) -> (r: RouteOutcome)
    ensures
        r == spec_route(req.method@, req.path@, req.headers@, enabled, expected_token@),
        !enabled ==> r == RouteOutcome::Disabled,
        r is Api || r == RouteOutcome::ControlPage ==> enabled,
        r is Api ==> spec_token_got(req.headers@, spec_query_of(req.path@)) == expected_token@,
{
    if !enabled {
        return RouteOutcome::Disabled;
    }
    if str_eq_ignore_case(req.method.as_str(), "OPTIONS") {
        return RouteOutcome::Preflight;
    }
    let (path, query) = split_path_query(req.path.as_str());
    if str_eq_ignore_case(req.method.as_str(), "GET") && str_eq(path, "/") {
        return RouteOutcome::ControlPage;
    }
    let token_got: String = match header_value_token(req) {
        Some(v) => v,
        None => query_token(query),
    };
    if !str_eq(token_got.as_str(), expected_token) {
        return RouteOutcome::Unauthorized;
    }
    let is_get = str_eq(req.method.as_str(), "GET");
    let is_post = str_eq(req.method.as_str(), "POST");
    if is_get && str_eq(path, "/api/state") {
        RouteOutcome::Api(ApiEndpoint::State)
    } else if is_post && str_eq(path, "/api/toggle") {
        RouteOutcome::Api(ApiEndpoint::Toggle)
    } else if is_post && str_eq(path, "/api/start") {
        RouteOutcome::Api(ApiEndpoint::Start)
    } else if is_post && str_eq(path, "/api/pause") {
        RouteOutcome::Api(ApiEndpoint::Pause)
    } else if is_post && str_eq(path, "/api/resume") {
        RouteOutcome::Api(ApiEndpoint::Resume)
    } else if is_post && str_eq(path, "/api/skip") {
        RouteOutcome::Api(ApiEndpoint::Skip)
    } else {
        RouteOutcome::NotFound
    }
}

/// The header token, when the header is present and decodes as UTF-8.
fn header_value_token(req: &HttpRequest) -> (r: Option<String>)
    ensures
        match first_header_value(req.headers@, "X-Pomodoro-Token"@) {
            Some(bytes) => if valid_utf8(bytes) {
                (r matches Some(s) && s@ == decode_utf8(bytes))
            } else {
                r is None
            },
            None => r is None,
        },
{
    match crate::http::header_value(&req.headers, "X-Pomodoro-Token") {
        Some(v) => utf8_to_string(v.as_slice()),
        None => None,
    }
}

/// Parses the buffered request head and routes it: a buffer that holds
/// no complete, well-formed head is a bad request, and anything else is
/// routed exactly as `spec_route` says. A disabled surface never reaches
/// the API or the page, and only it serves API outcomes.
pub fn handle_request(buf: &[u8], enabled: bool, expected_token: &str) -> (r: RouteOutcome)
    ensures
        r == (match http_head_of(buf@) {
            None => RouteOutcome::BadRequest,
            Some(h) => spec_route(h.method@, h.path@, h.headers@, enabled, expected_token@),
        }),
        !enabled ==> (r == RouteOutcome::BadRequest || r == RouteOutcome::Disabled),
        r is Api ==> enabled,
        r == RouteOutcome::ControlPage ==> enabled,
{
    match parse_http_request(buf) {
        None => RouteOutcome::BadRequest,
        Some(req) => route_request(&req, enabled, expected_token),
    }
}

/// Predicts the phase the advance rule would select, without mutating:
/// the same selection rule the boundary crossing uses.
pub fn predict_next_phase(timer: &TimerState, settings: &AppSettings) -> (r: TimerPhase)
    requires
        wf_timer(*timer),
        valid_settings(*settings),
        timer.cycle_index < i64::MAX,
    ensures
        r == spec_next_phase(*timer, *settings),
{
    match timer.phase {
        TimerPhase::Focus => {
            let next_cycle_index = timer.cycle_index + 1;
            if next_cycle_index % settings.long_break_every == 0 {
                TimerPhase::LongBreak
            } else {
                TimerPhase::ShortBreak
            }
        },
        TimerPhase::ShortBreak => TimerPhase::Focus,
        TimerPhase::LongBreak => TimerPhase::Focus,
    }
}

/// What the listener supervisor must do after a settings change.
#[derive(Clone, Copy, Debug, PartialEq, Eq, Structural)]
pub enum RemoteAction {
    /// Stop the running listener (if any); none remains.
    StopAll,
    /// The running listener already matches; leave it alone.
    Keep,
    /// Stop the running listener (if any) first, then bind this port.
    Replace(u16),
}

/// The listener that remains after an action is carried out.
pub open spec fn spec_listener_after(current: Option<u16>, a: RemoteAction) -> Option<u16> {
    match a {
        RemoteAction::StopAll => None,
        RemoteAction::Keep => current,
        RemoteAction::Replace(p) => Some(p),
    }
}

/// Decides the listener lifecycle: disabled control stops everything; an
/// already-matching listener is kept; anything else is replaced, the old
/// listener stopped before the new port is bound. Carried out, the plan
/// always leaves exactly one listener when remote control is enabled —
/// on the configured port — and none when it is disabled.
pub fn plan_remote(current: Option<u16>, enabled: bool, port: u16) -> (r: RemoteAction)
    ensures
        r == (if !enabled {
            RemoteAction::StopAll
        } else if current == Some(port) {
            RemoteAction::Keep
        } else {
            RemoteAction::Replace(port)
        }),
        spec_listener_after(current, r) == (if enabled {
            Some(port)
        } else {
            None::<u16>
        }),
        r is Replace ==> current != Some(port),
{
    if !enabled {
        return RemoteAction::StopAll;
    }
    match current {
        Some(p) if p == port => RemoteAction::Keep,
        _ => RemoteAction::Replace(port),
    }
}

/// The static control page the surface serves unauthenticated: a small
/// mobile-friendly remote with a token prompt, the live state, and the
/// toggle and skip buttons. A fixed page; its text is its own
/// specification.
pub fn remote_html() -> &'static str {
    r#"<!doctype html>
<html lang="en">
  <head>
    <meta charset="utf-8" />
    <meta name="viewport" content="width=device-width, initial-scale=1" />
    <title>Pomodoro Remote</title>
    <style>
      :root { color-scheme: light; }
      body { font-family: ui-sans-serif, system-ui, -apple-system, Segoe UI, Roboto, Helvetica, Arial; margin: 0; background: #0b1220; color: #e8eefc; }
      .wrap { max-width: 520px; margin: 0 auto; padding: 16px; }
      .card { background: rgba(255,255,255,0.06); border: 1px solid rgba(255,255,255,0.10); border-radius: 16px; padding: 16px; }
      .title { font-size: 18px; font-weight: 650; letter-spacing: 0.2px; margin: 0 0 10px; }
      .row { display: flex; gap: 10px; align-items: center; justify-content: space-between; }
      .big { font-size: 44px; font-weight: 750; letter-spacing: 0.6px; }
      .muted { color: rgba(232,238,252,0.72); font-size: 13px; }
      .btns { display: grid; grid-template-columns: 1fr 1fr; gap: 10px; margin-top: 14px; }
      button { appearance: none; border: 1px solid rgba(255,255,255,0.14); background: rgba(255,255,255,0.08); color: #e8eefc; padding: 12px 14px; border-radius: 12px; font-size: 16px; font-weight: 650; }
      button:active { transform: translateY(1px); }
      button.primary { background: rgba(46, 160, 255, 0.22); border-color: rgba(46, 160, 255, 0.35); }
      button.danger { background: rgba(255, 77, 77, 0.18); border-color: rgba(255, 77, 77, 0.30); }
      .token { width: 100%; padding: 12px 14px; border-radius: 12px; border: 1px solid rgba(255,255,255,0.14); background: rgba(0,0,0,0.25); color: #e8eefc; font-size: 16px; }
      .sp { height: 12px; }
      a { color: #a9d1ff; }
    </style>
  </head>
  <body>
    <div class="wrap">
      <div class="card">
        <p class="title">Pomodoro Remote</p>
        <div id="auth">
          <p class="muted">Enter your token (from the desktop app Settings) to control the timer.</p>
          <input id="token" class="token" placeholder="Token" autocomplete="off" />
          <div class="sp"></div>
          <button class="primary" id="saveToken">Continue</button>
        </div>
        <div id="main" style="display:none">
          <div class="row">
            <div>
              <div class="muted">
                <span id="phase">...</span>
                <span>&nbsp;&rarr;&nbsp;</span>
                <span>Next:&nbsp;</span>
                <span id="next_phase">...</span>
              </div>
              <div class="big" id="time">--:--</div>
            </div>
            <div class="muted" id="status">...</div>
          </div>
          <div class="btns">
            <button class="primary" id="toggle">Start / Pause</button>
            <button class="danger" id="skip">Skip Phase</button>
          </div>
          <div class="sp"></div>
          <p class="muted">Tip: you can bookmark this page. Token is stored in the URL as <code>?token=...</code>.</p>
        </div>
      </div>
      <div class="sp"></div>
      <p class="muted">If this page does not load: ensure Remote Control is enabled in the desktop app Settings, and your phone and desktop are on the same Wi‑Fi.</p>
    </div>

    <script>
      const qs = new URLSearchParams(location.search);
      let token = qs.get("token") || "";

      const auth = document.getElementById("auth");
      const main = document.getElementById("main");
      const tokenInput = document.getElementById("token");
      const saveToken = document.getElementById("saveToken");

      function withTokenUrl(t) {
        const u = new URL(location.href);
        u.searchParams.set("token", t);
        return u.toString();
      }

      function showMain() { auth.style.display = "none"; main.style.display = "block"; }
      function showAuth() { auth.style.display = "block"; main.style.display = "none"; }

      if (token) showMain(); else showAuth();
      tokenInput.value = token;
      saveToken.addEventListener("click", () => {
        const t = (tokenInput.value || "").trim();
        if (!t) return;
        location.href = withTokenUrl(t);
      });

      async function api(path, method) {
        const res = await fetch(path, {
          method,
          headers: { "X-Pomodoro-Token": token }
        });
        if (res.status === 401) throw new Error("Unauthorized (bad token)");
        if (!res.ok) throw new Error("HTTP " + res.status);
        return res.json();
      }

      function phaseLabel(p) {
        if (p === "focus") return "Focus";
        if (p === "short_break") return "Short break";
        if (p === "long_break") return "Long break";
        return p;
      }

      function fmt(sec) {
        const m = Math.floor(sec / 60);
        const s = sec % 60;
        return String(m).padStart(2, "0") + ":" + String(s).padStart(2, "0");
      }

      async function refresh() {
        if (!token) return;
        try {
          const st = await api("/api/state", "GET");
          document.getElementById("phase").textContent = phaseLabel(st.phase);
          document.getElementById("next_phase").textContent = phaseLabel(st.nextPhase);
          document.getElementById("time").textContent = fmt(st.remainingSeconds);
          document.getElementById("status").textContent = st.isRunning ? "Running" : "Paused";
        } catch (e) {
          document.getElementById("status").textContent = String(e.message || e);
        }
      }

      document.getElementById("toggle").addEventListener("click", async () => {
        try { await api("/api/toggle", "POST"); } finally { await refresh(); }
      });
      document.getElementById("skip").addEventListener("click", async () => {
        try { await api("/api/skip", "POST"); } finally { await refresh(); }
      });

      refresh();
      setInterval(refresh, 1000);
    </script>
  </body>
</html>
"#
}

} // verus!
