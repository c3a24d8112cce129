//! Data model of the timer: phases, settings, the shared timer state,
//! immutable session records, and the tri-state context patch.

use vstd::prelude::*;

use crate::text::str_eq;

verus! {

/// Upper bound on the epoch-second timestamps the engine accepts.
/// Keeping every clock reading below it keeps all deadline arithmetic
/// far away from `i64` overflow.
pub const MAX_TS: i64 = 4_000_000_000_000;

/// Longest phase duration valid settings can produce: 180 minutes.
pub const MAX_PHASE_SECONDS: i64 = 10800;

#[derive(Clone, Copy, Debug, PartialEq, Eq, Structural)]
pub enum TimerPhase {
    Focus,
    ShortBreak,
    LongBreak,
}

impl TimerPhase {
    /// Human-readable label, as shown in tray titles and notifications.
    pub fn label(&self) -> (r: &'static str)
        ensures
            *self == TimerPhase::Focus ==> r@ == "Focus"@,
            *self == TimerPhase::ShortBreak ==> r@ == "Short break"@,
            *self == TimerPhase::LongBreak ==> r@ == "Long break"@,
    {
        match self {
            TimerPhase::Focus => "Focus",
            TimerPhase::ShortBreak => "Short break",
            TimerPhase::LongBreak => "Long break",
        }
    }

    /// Stable identifier of the phase in storage rows and on the wire.
    pub fn as_db_value(&self) -> (r: &'static str)
        ensures
            r@ == phase_db_value(*self),
    {
        match self {
            TimerPhase::Focus => "focus",
            TimerPhase::ShortBreak => "short_break",
            TimerPhase::LongBreak => "long_break",
        }
    }

    /// Reads a phase back from its stored identifier, tolerating the quote
    /// marks a JSON-encoded value carries. Any other identifier is an
    /// error naming the offending value.
    pub fn from_db_value(value: &str) -> (r: Result<TimerPhase, String>)
        ensures
            match spec_phase_from_value(value@) {
                Some(p) => r == Ok::<TimerPhase, String>(p),
                None => (r matches Err(e) && e@ == "unknown timer phase: "@ + spec_trim_quotes(
                    value@,
                )),
            },
    {
        let len = value.unicode_len();
        let mut lo: usize = 0;
        while lo < len && value.get_char(lo) == '"'
            invariant
                0 <= lo <= len,
                len == value@.len(),
                forall|j: int| 0 <= j < lo ==> value@[j] == '"',
            decreases len - lo,
        {
            lo = lo + 1;
        }
        let mut hi: usize = len;
        while hi > lo && value.get_char(hi - 1) == '"'
            invariant
                lo <= hi <= len,
                len == value@.len(),
                forall|j: int| hi <= j < len ==> value@[j] == '"',
            decreases hi,
        {
            hi = hi - 1;
        }
        let trimmed = value.substring_char(lo, hi);
        proof {
            lemma_drop_leading_quotes_subrange(value@, lo as int);
            let dropped = value@.subrange(lo as int, len as int);
            lemma_drop_trailing_quotes_subrange(dropped, hi - lo);
            assert(dropped.subrange(0, hi - lo) == value@.subrange(lo as int, hi as int));
        }
        if str_eq(trimmed, "focus") {
            Ok(TimerPhase::Focus)
        } else if str_eq(trimmed, "short_break") {
            Ok(TimerPhase::ShortBreak)
        } else if str_eq(trimmed, "long_break") {
            Ok(TimerPhase::LongBreak)
        } else {
            Err(String::from_str("unknown timer phase: ").concat(trimmed))
        }
    }
}

/// The storage identifier of each phase.
pub open spec fn phase_db_value(p: TimerPhase) -> Seq<char> {
    match p {
        TimerPhase::Focus => "focus"@,
        TimerPhase::ShortBreak => "short_break"@,
        TimerPhase::LongBreak => "long_break"@,
    }
}

/// Characters left after dropping every leading quote mark.
pub open spec fn drop_leading_quotes(s: Seq<char>) -> Seq<char>
    decreases s.len(),
{
    if s.len() > 0 && s[0] == '"' {
        drop_leading_quotes(s.drop_first())
    } else {
        s
    }
}

/// Characters left after dropping every trailing quote mark.
pub open spec fn drop_trailing_quotes(s: Seq<char>) -> Seq<char>
    decreases s.len(),
{
    if s.len() > 0 && s[s.len() - 1] == '"' {
        drop_trailing_quotes(s.drop_last())
    } else {
        s
    }
}

/// What trimming quote marks from both ends leaves.
pub open spec fn spec_trim_quotes(s: Seq<char>) -> Seq<char> {
    drop_trailing_quotes(drop_leading_quotes(s))
}

/// The phase a stored identifier denotes, after shedding the quote marks
/// a JSON-encoded value carries.
pub open spec fn spec_phase_from_value(s: Seq<char>) -> Option<TimerPhase> {
    let t = spec_trim_quotes(s);
    if t == "focus"@ {
        Some(TimerPhase::Focus)
    } else if t == "short_break"@ {
        Some(TimerPhase::ShortBreak)
    } else if t == "long_break"@ {
        Some(TimerPhase::LongBreak)
    } else {
        None
    }
}

proof fn lemma_drop_leading_quotes_subrange(s: Seq<char>, i: int)
    requires
        0 <= i <= s.len(),
        forall|j: int| 0 <= j < i ==> s[j] == '"',
        i == s.len() || s[i] != '"',
    ensures
        drop_leading_quotes(s) == s.subrange(i, s.len() as int),
    decreases i,
{
    if i == 0 {
        assert(s.subrange(0, s.len() as int) == s);
    } else {
        assert(s[0] == '"');
        lemma_drop_leading_quotes_subrange(s.drop_first(), i - 1);
        assert(s.drop_first().subrange(i - 1, s.drop_first().len() as int) == s.subrange(
            i,
            s.len() as int,
        ));
    }
}

proof fn lemma_drop_trailing_quotes_subrange(s: Seq<char>, i: int)
    requires
        0 <= i <= s.len(),
        forall|j: int| i <= j < s.len() ==> s[j] == '"',
        i == 0 || s[i - 1] != '"',
    ensures
        drop_trailing_quotes(s) == s.subrange(0, i),
    decreases s.len() - i,
{
    if i == s.len() {
        assert(s.subrange(0, s.len() as int) == s);
    } else {
        assert(s[s.len() - 1] == '"');
        lemma_drop_trailing_quotes_subrange(s.drop_last(), i);
        assert(s.drop_last().subrange(0, i) == s.subrange(0, i));
    }
}

/// User settings that drive the timer and the remote control surface.
#[derive(Clone, Debug, PartialEq)]
pub struct AppSettings {
    pub focus_min: i64,
    pub short_break_min: i64,
    pub long_break_min: i64,
    pub long_break_every: i64,
    pub theme: String,
    pub sound_enabled: bool,
    pub notifications_enabled: bool,
    pub remote_control_enabled: bool,
    pub remote_control_port: i64,
    pub remote_control_token: String,
}

/// Ranges the normalization clamp guarantees.
pub open spec fn valid_settings(s: AppSettings) -> bool {
    &&& 1 <= s.focus_min <= 180
    &&& 1 <= s.short_break_min <= 60
    &&& 1 <= s.long_break_min <= 90
    &&& 2 <= s.long_break_every <= 10
    &&& 1024 <= s.remote_control_port <= 65535
}

/// Seconds a full phase lasts under the given settings.
pub open spec fn phase_secs(s: AppSettings, p: TimerPhase) -> int {
    match p {
        TimerPhase::Focus => s.focus_min * 60,
        TimerPhase::ShortBreak => s.short_break_min * 60,
        TimerPhase::LongBreak => s.long_break_min * 60,
    }
}

impl AppSettings {
    /// The full duration, in seconds, of the given phase.
    pub fn duration_for_phase_seconds(&self, phase: &TimerPhase) -> (r: i64)
        requires
            valid_settings(*self),
        ensures
            r == phase_secs(*self, *phase),
            60 <= r <= MAX_PHASE_SECONDS,
    {
        match phase {
            TimerPhase::Focus => self.focus_min * 60,
            TimerPhase::ShortBreak => self.short_break_min * 60,
            TimerPhase::LongBreak => self.long_break_min * 60,
        }
    }
}

impl Default for AppSettings {
    /// The out-of-the-box configuration: 25/5/15 minutes, long break
    /// every fourth focus phase, remote control disabled.
    fn default() -> (r: Self)
        ensures
            r.focus_min == 25,
            r.short_break_min == 5,
            r.long_break_min == 15,
            r.long_break_every == 4,
            r.theme@ == "light"@,
            r.sound_enabled,
            r.notifications_enabled,
            !r.remote_control_enabled,
            r.remote_control_port == 48484,
            r.remote_control_token@ == Seq::<char>::empty(),
            valid_settings(r),
    {
        AppSettings {
            focus_min: 25,
            short_break_min: 5,
            long_break_min: 15,
            long_break_every: 4,
            theme: String::from_str("light"),
            sound_enabled: true,
            notifications_enabled: true,
            remote_control_enabled: false,
            remote_control_port: 48484,
            remote_control_token: String::new(),
        }
    }
}

/// A partial settings update: absent fields stay as they are.
#[derive(Clone, Debug, Default)]
pub struct AppSettingsPatch {
    pub focus_min: Option<i64>,
    pub short_break_min: Option<i64>,
    pub long_break_min: Option<i64>,
    pub long_break_every: Option<i64>,
    pub theme: Option<String>,
    pub sound_enabled: Option<bool>,
    pub notifications_enabled: Option<bool>,
    pub remote_control_enabled: Option<bool>,
    pub remote_control_port: Option<i64>,
    pub remote_control_token: Option<String>,
}

/// Tri-state update of the current project association:
/// leave it alone, clear it, or set it to a given project.
#[derive(Clone, Copy, Debug, PartialEq, Eq, Structural)]
pub enum ProjectPatch {
    Keep,
    Clear,
    Assign(i64),
}

/// Context carried by a start/resume request: the project patch and,
/// when present, a full replacement of the tag set.
#[derive(Clone, Debug)]
pub struct StartTimerRequest {
    pub project_id: ProjectPatch,
    pub tag_ids: Option<Vec<i64>>,
}

/// The one shared timer: phase, countdown, run flag, cadence counter,
/// interruption count and the current project/tag context.
#[derive(Clone, Debug, PartialEq)]
pub struct TimerState {
    pub phase: TimerPhase,
    pub remaining_seconds: i64,
    pub is_running: bool,
    pub cycle_index: i64,
    pub started_at: Option<i64>,
    pub phase_total_seconds: i64,
    pub interruptions: i64,
    pub current_project_id: Option<i64>,
    pub current_tag_ids: Vec<i64>,
    pub target_ends_at: Option<i64>,
}

/// The timer invariant: the countdown stays within the phase length,
/// counters are non-negative, the absolute deadline exists exactly while
/// running, and every stored instant lies in the supported range.
pub open spec fn wf_timer(t: TimerState) -> bool {
    &&& 0 < t.phase_total_seconds <= MAX_PHASE_SECONDS
    &&& 0 <= t.remaining_seconds <= t.phase_total_seconds
    &&& 0 <= t.cycle_index
    &&& 0 <= t.interruptions
    &&& (t.is_running <==> t.target_ends_at is Some)
    &&& (t.started_at is Some ==> 0 <= t.started_at->0 <= MAX_TS)
    &&& (t.target_ends_at is Some ==> 0 <= t.target_ends_at->0 <= MAX_TS + MAX_PHASE_SECONDS)
}

impl TimerState {
    /// A fresh, idle Focus timer sized from the settings.
    pub fn default_with_settings(settings: &AppSettings) -> (r: Self)
        requires
            valid_settings(*settings),
        ensures
            r.phase == TimerPhase::Focus,
            r.remaining_seconds == phase_secs(*settings, TimerPhase::Focus),
            !r.is_running,
            r.cycle_index == 0,
            r.started_at is None,
            r.phase_total_seconds == phase_secs(*settings, TimerPhase::Focus),
            r.interruptions == 0,
            r.current_project_id is None,
            r.current_tag_ids@ == Seq::<i64>::empty(),
            r.target_ends_at is None,
            wf_timer(r),
    {
        let phase = TimerPhase::Focus;
        let phase_total_seconds = settings.duration_for_phase_seconds(&phase);
        TimerState {
            phase,
            remaining_seconds: phase_total_seconds,
            is_running: false,
            cycle_index: 0,
            started_at: None,
            phase_total_seconds,
            interruptions: 0,
            current_project_id: None,
            current_tag_ids: Vec::new(),
            target_ends_at: None,
        }
    }
}

/// An immutable record of one finished (or skipped) phase.
#[derive(Clone, Debug, PartialEq)]
pub struct SessionRecord {
    pub id: i64,
    pub started_at: i64,
    pub ended_at: i64,
    pub phase: TimerPhase,
    pub duration_sec: i64,
    pub completed: bool,
    pub interruptions: i64,
    pub project_id: Option<i64>,
    pub tag_ids: Vec<i64>,
}

/// Event published after a boundary crossing: which phase finished and
/// which one the timer advanced to.
#[derive(Clone, Copy, Debug, PartialEq, Eq, Structural)]
pub struct PhaseCompletedEvent {
    pub completed_phase: TimerPhase,
    pub next_phase: TimerPhase,
}

/// Filter for reading sessions back from storage.
#[derive(Clone, Copy, Debug, Default)]
pub struct AnalyticsRange {
    pub from: Option<i64>,
    pub to: Option<i64>,
    pub project_id: Option<i64>,
    pub tag_id: Option<i64>,
}

/// Aggregate figures over a set of session records.
#[derive(Clone, Copy, Debug, PartialEq, Eq, Structural)]
pub struct AnalyticsSummary {
    pub total_focus_sec: i64,
    pub completed_pomodoros: i64,
    pub streak_days: i64,
    pub interruptions: i64,
    pub avg_daily_focus_sec: i64,
}

} // verus!
