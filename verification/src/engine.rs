//! The authoritative timer engine: refresh, start/pause/resume/skip,
//! context updates, the phase-advance algorithm, session recording and
//! the once-per-second tick decision.
//!
//! Every operation is a total function of the state, the settings and a
//! clock reading handed in by the caller; persistence and event delivery
//! happen outside the library, after the transition.

use vstd::prelude::*;

use crate::models::{
    AppSettings, PhaseCompletedEvent, ProjectPatch, SessionRecord, StartTimerRequest, TimerPhase,
    TimerState, MAX_PHASE_SECONDS, MAX_TS, phase_secs, valid_settings, wf_timer,
};

verus! {

/// Recomputing the countdown from the absolute deadline: while running,
/// the remaining time is the distance to the deadline, clamped into
/// `[0, phase_total_seconds]`.
pub open spec fn spec_refresh(t: TimerState, now: int) -> TimerState {
    if t.is_running && t.target_ends_at is Some {
        let d = t.target_ends_at->0 - now;
        let clamped = if d < 0 {
            0
        } else if d > t.phase_total_seconds {
            t.phase_total_seconds as int
        } else {
            d
        };
        TimerState { remaining_seconds: clamped as i64, ..t }
    } else {
        t
    }
}

/// Tri-state context application: the project is kept, cleared or set;
/// the tag set, when present, is replaced wholesale.
pub open spec fn spec_apply_context(t: TimerState, payload: StartTimerRequest) -> TimerState {
    let project = match payload.project_id {
        ProjectPatch::Keep => t.current_project_id,
        ProjectPatch::Clear => None,
        ProjectPatch::Assign(id) => Some(id),
    };
    let tags = match payload.tag_ids {
        Some(v) => v,
        None => t.current_tag_ids,
    };
    TimerState { current_project_id: project, current_tag_ids: tags, ..t }
}

pub open spec fn spec_apply_context_opt(t: TimerState, payload: Option<StartTimerRequest>) -> TimerState {
    match payload {
        Some(p) => spec_apply_context(t, p),
        None => t,
    }
}

/// Entering the running state: an exhausted countdown is reset to the full
/// phase, the start instant is set if it was never set, and the absolute
/// deadline becomes `now + remaining`.
pub open spec fn spec_begin_running(t: TimerState, now: int) -> TimerState {
    let rem = if t.remaining_seconds <= 0 {
        t.phase_total_seconds
    } else {
        t.remaining_seconds
    };
    let started = if t.started_at is None {
        Some(now as i64)
    } else {
        t.started_at
    };
    TimerState {
        remaining_seconds: rem,
        started_at: started,
        is_running: true,
        target_ends_at: Some((now + rem) as i64),
        ..t
    }
}

/// Leaving the running state: a manual pause during Focus counts as one
/// interruption; the deadline is dropped.
pub open spec fn spec_pause(t: TimerState) -> TimerState {
    let bump: int = if t.phase == TimerPhase::Focus && t.is_running {
        1
    } else {
        0
    };
    TimerState {
        interruptions: (t.interruptions + bump) as i64,
        is_running: false,
        target_ends_at: None,
        ..t
    }
}

/// The phase-selection rule: after Focus the break is long exactly when the
/// new completed-Focus count is a multiple of `long_break_every`; every
/// break is followed by Focus.
pub open spec fn spec_next_phase(t: TimerState, s: AppSettings) -> TimerPhase {
    match t.phase {
        TimerPhase::Focus => {
            if (t.cycle_index + 1) % (s.long_break_every as int) == 0 {
                TimerPhase::LongBreak
            } else {
                TimerPhase::ShortBreak
            }
        },
        TimerPhase::ShortBreak => TimerPhase::Focus,
        TimerPhase::LongBreak => TimerPhase::Focus,
    }
}

/// Crossing a boundary: the phase advances by the selection rule, the
/// countdown is reset to the new phase's full length, the timer idles and
/// the interruption count starts over.
pub open spec fn spec_advance(t: TimerState, s: AppSettings) -> TimerState {
    let next = spec_next_phase(t, s);
    let cyc: int = if t.phase == TimerPhase::Focus {
        t.cycle_index + 1
    } else {
        t.cycle_index as int
    };
    let total = phase_secs(s, next);
    TimerState {
        phase: next,
        cycle_index: cyc as i64,
        phase_total_seconds: total as i64,
        remaining_seconds: total as i64,
        is_running: false,
        started_at: None,
        target_ends_at: None,
        interruptions: 0,
        ..t
    }
}

/// Elapsed time credited to a finished phase: the full length on natural
/// completion, otherwise the consumed part, clamped into the phase length.
pub open spec fn spec_elapsed(t: TimerState, completed: bool) -> int {
    if completed {
        t.phase_total_seconds as int
    } else {
        let e = t.phase_total_seconds - t.remaining_seconds;
        if e < 0 {
            0
        } else if e > t.phase_total_seconds {
            t.phase_total_seconds as int
        } else {
            e
        }
    }
}

/// The start instant written into a record: the remembered one, with a
/// fallback of `ended_at` minus the elapsed time.
pub open spec fn spec_record_started_at(t: TimerState, completed: bool, ended_at: int) -> int {
    if t.started_at is Some {
        t.started_at->0 as int
    } else {
        ended_at - spec_elapsed(t, completed)
    }
}

/// What a session record of the finished state `t` must hold. Only Focus
/// phases carry a project and tags; breaks never do.
pub open spec fn session_matches(
    r: SessionRecord,
    t: TimerState,
    completed: bool,
    ended_at: int,
    id: int,
) -> bool {
    &&& r.id == id
    &&& r.started_at == spec_record_started_at(t, completed, ended_at)
    &&& r.ended_at == ended_at
    &&& r.phase == t.phase
    &&& r.duration_sec == spec_elapsed(t, completed)
    &&& r.completed == completed
    &&& r.interruptions == t.interruptions
    &&& r.project_id == (if t.phase == TimerPhase::Focus {
        t.current_project_id
    } else {
        None::<i64>
    })
    &&& r.tag_ids@ == (if t.phase == TimerPhase::Focus {
        t.current_tag_ids@
    } else {
        Seq::<i64>::empty()
    })
}

/// Mandatory first step of every remaining-dependent operation: while
/// running, recompute the countdown from the absolute deadline.
pub fn refresh_remaining(timer: &mut TimerState, now: i64)
    requires
        wf_timer(*old(timer)),
        0 <= now <= MAX_TS,
    ensures
        *final(timer) == spec_refresh(*old(timer), now as int),
        wf_timer(*final(timer)),
{
    if timer.is_running {
        if let Some(target) = timer.target_ends_at {
            let d = target - now;
            let clamped = if d < 0 {
                0
            } else if d > timer.phase_total_seconds {
                timer.phase_total_seconds
            } else {
                d
            };
            timer.remaining_seconds = clamped;
        }
    }
}

/// Applies a context patch to the timer without touching the countdown.
fn apply_context(timer: &mut TimerState, payload: StartTimerRequest)
    ensures
        *final(timer) == spec_apply_context(*old(timer), payload),
{
    match payload.project_id {
        ProjectPatch::Keep => {},
        ProjectPatch::Clear => {
            timer.current_project_id = None;
        },
        ProjectPatch::Assign(id) => {
            timer.current_project_id = Some(id);
        },
    }
    if let Some(tags) = payload.tag_ids {
        timer.current_tag_ids = tags;
    }
}

fn apply_context_opt(timer: &mut TimerState, payload: Option<StartTimerRequest>)
    ensures
        *final(timer) == spec_apply_context_opt(*old(timer), payload),
{
    if let Some(p) = payload {
        apply_context(timer, p);
    }
}

/// Start: refresh, apply the optional context patch, then run. Resets an
/// exhausted countdown to the full phase and fixes the absolute deadline.
pub fn start_timer(timer: &mut TimerState, payload: Option<StartTimerRequest>, now: i64)
    requires
        wf_timer(*old(timer)),
        0 <= now <= MAX_TS,
    ensures
        *final(timer) == spec_begin_running(
            spec_apply_context_opt(spec_refresh(*old(timer), now as int), payload),
            now as int,
        ),
        wf_timer(*final(timer)),
        final(timer).is_running,
        0 < final(timer).remaining_seconds <= final(timer).phase_total_seconds,
        final(timer).target_ends_at is Some,
        final(timer).target_ends_at->0 == now + final(timer).remaining_seconds,
        final(timer).phase == old(timer).phase,
        final(timer).cycle_index == old(timer).cycle_index,
        final(timer).interruptions == old(timer).interruptions,
{
    refresh_remaining(timer, now);
    apply_context_opt(timer, payload);
    if timer.remaining_seconds <= 0 {
        timer.remaining_seconds = timer.phase_total_seconds;
    }
    if timer.started_at.is_none() {
        timer.started_at = Some(now);
    }
    timer.is_running = true;
    timer.target_ends_at = Some(now + timer.remaining_seconds);
}

/// Resume is the same transition as start; the two exist as distinct
/// operations of the command surface.
pub fn resume_timer(timer: &mut TimerState, payload: Option<StartTimerRequest>, now: i64)
    requires
        wf_timer(*old(timer)),
        0 <= now <= MAX_TS,
    ensures
        *final(timer) == spec_begin_running(
            spec_apply_context_opt(spec_refresh(*old(timer), now as int), payload),
            now as int,
        ),
        wf_timer(*final(timer)),
        final(timer).is_running,
{
    start_timer(timer, payload, now);
}

/// Pause: refresh, then stop the countdown. A pause during a running Focus
/// phase counts exactly one interruption; pausing a break changes nothing
/// but the run flag and deadline.
pub fn pause_timer(timer: &mut TimerState, now: i64)
    requires
        wf_timer(*old(timer)),
        0 <= now <= MAX_TS,
        old(timer).interruptions < i64::MAX,
    ensures
        *final(timer) == spec_pause(spec_refresh(*old(timer), now as int)),
        wf_timer(*final(timer)),
        !final(timer).is_running,
        final(timer).target_ends_at is None,
        final(timer).interruptions == old(timer).interruptions + (
            if old(timer).phase == TimerPhase::Focus && old(timer).is_running {
                1int
            } else {
                0int
            }
        ),
        final(timer).phase == old(timer).phase,
        final(timer).cycle_index == old(timer).cycle_index,
{
    refresh_remaining(timer, now);
    if timer.phase == TimerPhase::Focus && timer.is_running {
        timer.interruptions = timer.interruptions + 1;
    }
    timer.is_running = false;
    timer.target_ends_at = None;
}

/// Context update alone: refresh, then apply the patch. Never touches the
/// run state.
pub fn set_context(timer: &mut TimerState, payload: StartTimerRequest, now: i64)
    requires
        wf_timer(*old(timer)),
        0 <= now <= MAX_TS,
    ensures
        *final(timer) == spec_apply_context(spec_refresh(*old(timer), now as int), payload),
        wf_timer(*final(timer)),
        final(timer).is_running == old(timer).is_running,
        final(timer).phase == old(timer).phase,
        final(timer).interruptions == old(timer).interruptions,
{
    refresh_remaining(timer, now);
    apply_context(timer, payload);
}

/// One-button toggle: pause when running, otherwise begin running.
pub fn toggle_timer(timer: &mut TimerState, now: i64)
    requires
        wf_timer(*old(timer)),
        0 <= now <= MAX_TS,
        old(timer).interruptions < i64::MAX,
    ensures
        *final(timer) == (if old(timer).is_running {
            spec_pause(spec_refresh(*old(timer), now as int))
        } else {
            spec_begin_running(spec_refresh(*old(timer), now as int), now as int)
        }),
        wf_timer(*final(timer)),
        final(timer).is_running == !old(timer).is_running,
{
    if timer.is_running {
        pause_timer(timer, now);
    } else {
        start_timer(timer, None, now);
    }
}

/// The phase-advance algorithm: Focus completions bump the cycle count and
/// pick the break by cadence; breaks always return to Focus. The new phase
/// starts idle, at full length, with the interruption count reset.
pub fn advance_timer(timer: &mut TimerState, settings: &AppSettings)
    requires
        wf_timer(*old(timer)),
        valid_settings(*settings),
        old(timer).cycle_index < i64::MAX,
    ensures
        *final(timer) == spec_advance(*old(timer), *settings),
        wf_timer(*final(timer)),
        final(timer).phase == spec_next_phase(*old(timer), *settings),
        final(timer).phase_total_seconds == phase_secs(*settings, final(timer).phase),
        final(timer).remaining_seconds == final(timer).phase_total_seconds,
        !final(timer).is_running,
        final(timer).interruptions == 0,
        final(timer).started_at is None,
        final(timer).target_ends_at is None,
        old(timer).phase == TimerPhase::Focus ==> final(timer).cycle_index == old(timer).cycle_index + 1,
        old(timer).phase != TimerPhase::Focus ==> final(timer).cycle_index == old(timer).cycle_index,
{
    let next_phase = match timer.phase {
        TimerPhase::Focus => {
            timer.cycle_index = timer.cycle_index + 1;
            if timer.cycle_index % settings.long_break_every == 0 {
                TimerPhase::LongBreak
            } else {
                TimerPhase::ShortBreak
            }
        },
        TimerPhase::ShortBreak => TimerPhase::Focus,
        TimerPhase::LongBreak => TimerPhase::Focus,
    };
    timer.phase = next_phase;
    timer.phase_total_seconds = settings.duration_for_phase_seconds(&next_phase);
    timer.remaining_seconds = timer.phase_total_seconds;
    timer.is_running = false;
    timer.started_at = None;
    timer.target_ends_at = None;
    timer.interruptions = 0;
}

/// Copies a tag list element by element.
fn copy_tags(v: &Vec<i64>) -> (r: Vec<i64>)
    ensures
        r@ == v@,
{
    let mut out: Vec<i64> = Vec::new();
    let mut i: usize = 0;
    while i < v.len()
        invariant
            0 <= i <= v.len(),
            out@ == v@.subrange(0, i as int),
        decreases v.len() - i,
    {
        out.push(v[i]);
        i = i + 1;
    }
    assert(out@ == v@.subrange(0, v@.len() as int));
    assert(v@.subrange(0, v@.len() as int) == v@);
    out
}

/// Builds the immutable record of the phase that is ending. `id` is the
/// storage key the caller obtained for the row. The elapsed-time formula
/// distinguishes natural completion from a skip; only Focus records carry
/// the project and tag context.
pub fn record_session(timer: &TimerState, completed: bool, ended_at: i64, id: i64) -> (r:
    SessionRecord)
    requires
        wf_timer(*timer),
        0 <= ended_at <= MAX_TS,
    ensures
        session_matches(r, *timer, completed, ended_at as int, id as int),
{
    let elapsed = if completed {
        timer.phase_total_seconds
    } else {
        let e = timer.phase_total_seconds - timer.remaining_seconds;
        if e < 0 {
            0
        } else if e > timer.phase_total_seconds {
            timer.phase_total_seconds
        } else {
            e
        }
    };

    let started_at = match timer.started_at {
        Some(s) => s,
        None => ended_at - elapsed,
    };

    let is_focus = timer.phase == TimerPhase::Focus;
    let project_id = if is_focus {
        timer.current_project_id
    } else {
        None
    };
    let tag_ids = if is_focus {
        copy_tags(&timer.current_tag_ids)
    } else {
        Vec::new()
    };

    SessionRecord {
        id,
        started_at,
        ended_at,
        phase: timer.phase,
        duration_sec: elapsed,
        completed,
        interruptions: timer.interruptions,
        project_id,
        tag_ids,
    }
}

/// Records the finished phase, advances the timer, and reports the
/// boundary event. The caller persists the record and the new state.
pub fn complete_and_advance(
    timer: &mut TimerState,
    settings: &AppSettings,
    completed: bool,
    ended_at: i64,
    id: i64,
) -> (r: (SessionRecord, PhaseCompletedEvent))
    requires
        wf_timer(*old(timer)),
        valid_settings(*settings),
        old(timer).cycle_index < i64::MAX,
        0 <= ended_at <= MAX_TS,
    ensures
        session_matches(r.0, *old(timer), completed, ended_at as int, id as int),
        r.1.completed_phase == old(timer).phase,
        r.1.next_phase == spec_next_phase(*old(timer), *settings),
        *final(timer) == spec_advance(*old(timer), *settings),
        wf_timer(*final(timer)),
        final(timer).phase == r.1.next_phase,
{
    let finished_phase = timer.phase;
    let session = record_session(timer, completed, ended_at, id);
    advance_timer(timer, settings);
    let event = PhaseCompletedEvent { completed_phase: finished_phase, next_phase: timer.phase };
    (session, event)
}

/// Skip: refresh, then force a boundary crossing now with `completed`
/// false, irrespective of the remaining time.
pub fn skip_timer(timer: &mut TimerState, settings: &AppSettings, now: i64, id: i64) -> (r: (
    SessionRecord,
    PhaseCompletedEvent,
))
    requires
        wf_timer(*old(timer)),
        valid_settings(*settings),
        old(timer).cycle_index < i64::MAX,
        0 <= now <= MAX_TS,
    ensures
        session_matches(r.0, spec_refresh(*old(timer), now as int), false, now as int, id as int),
        r.1.completed_phase == old(timer).phase,
        r.1.next_phase == spec_next_phase(*old(timer), *settings),
        *final(timer) == spec_advance(spec_refresh(*old(timer), now as int), *settings),
        wf_timer(*final(timer)),
        final(timer).phase == r.1.next_phase,
        !r.0.completed,
{
    refresh_remaining(timer, now);
    complete_and_advance(timer, settings, false, now, id)
}

/// What one ticker wake-up decides.
#[derive(Clone, Copy, Debug, PartialEq, Eq, Structural)]
pub enum TickOutcome {
    /// The timer is idle; nothing to do.
    Idle,
    /// Still counting down; the flag says whether the countdown moved and
    /// should be persisted and published.
    Running(bool),
    /// The countdown is exhausted: the caller must record the completed
    /// phase and advance.
    Boundary,
}

/// The decision one ticker wake-up makes on the refreshed state.
pub open spec fn spec_tick_outcome(t: TimerState, now: int) -> TickOutcome {
    if !t.is_running {
        TickOutcome::Idle
    } else {
        let refreshed = spec_refresh(t, now);
        if refreshed.remaining_seconds <= 0 {
            TickOutcome::Boundary
        } else {
            TickOutcome::Running(refreshed.remaining_seconds != t.remaining_seconds)
        }
    }
}

/// One ticker wake-up: refresh while running, and report whether the timer
/// is idle, still counting (and whether the countdown moved), or at a
/// boundary that the caller must record and advance.
pub fn tick(timer: &mut TimerState, now: i64) -> (r: TickOutcome)
    requires
        wf_timer(*old(timer)),
        0 <= now <= MAX_TS,
    ensures
        *final(timer) == spec_refresh(*old(timer), now as int),
        wf_timer(*final(timer)),
        r == spec_tick_outcome(*old(timer), now as int),
        r == TickOutcome::Idle <==> !old(timer).is_running,
        r == TickOutcome::Boundary ==> final(timer).is_running && final(timer).remaining_seconds == 0,
{
    if !timer.is_running {
        return TickOutcome::Idle;
    }
    let before = timer.remaining_seconds;
    refresh_remaining(timer, now);
    if timer.remaining_seconds <= 0 {
        TickOutcome::Boundary
    } else {
        TickOutcome::Running(timer.remaining_seconds != before)
    }
}

/// Once a boundary has been crossed and the timer advanced, the advanced
/// state is idle: a racing second ticker wake-up (or any later one before
/// a restart) decides `Idle`, leaves the state untouched, and records
/// nothing. Together with the exclusive access discipline of the caller
/// this gives exactly one session record per boundary.
pub proof fn lemma_boundary_records_once(t: TimerState, s: AppSettings, now: int)
    requires
        wf_timer(t),
    ensures
        !spec_advance(t, s).is_running,
        spec_tick_outcome(spec_advance(t, s), now) == TickOutcome::Idle,
        spec_refresh(spec_advance(t, s), now) == spec_advance(t, s),
{
}

/// The long-break cadence: completing a Focus phase advances the cycle
/// count by one, and the break is long exactly when that new count is a
/// multiple of `long_break_every`.
pub proof fn lemma_long_break_cadence(t: TimerState, s: AppSettings)
    requires
        wf_timer(t),
        valid_settings(s),
        t.phase == TimerPhase::Focus,
        t.cycle_index < i64::MAX,
    ensures
        spec_advance(t, s).cycle_index == t.cycle_index + 1,
        (t.cycle_index + 1) % (s.long_break_every as int) == 0 ==> spec_advance(t, s).phase
            == TimerPhase::LongBreak,
        (t.cycle_index + 1) % (s.long_break_every as int) != 0 ==> spec_advance(t, s).phase
            == TimerPhase::ShortBreak,
{
}

/// A break never ends in another break: advancing out of either break
/// always selects Focus.
pub proof fn lemma_break_returns_to_focus(t: TimerState, s: AppSettings)
    requires
        wf_timer(t),
        valid_settings(s),
        t.phase != TimerPhase::Focus,
    ensures
        spec_advance(t, s).phase == TimerPhase::Focus,
        spec_advance(t, s).cycle_index == t.cycle_index,
{
}

/// Normalizes a timer loaded from storage against the current settings:
/// the phase length is recomputed, an out-of-range countdown resets the
/// phase and stops the timer, counters are clamped to zero, instants
/// outside the supported range are dropped, and the run flag agrees with
/// the presence of a deadline.
pub fn normalize_timer_state(timer: TimerState, settings: &AppSettings) -> (r: TimerState)
    requires
        valid_settings(*settings),
    ensures
        wf_timer(r),
        r.phase == timer.phase,
        r.phase_total_seconds == phase_secs(*settings, timer.phase),
        r.current_project_id == timer.current_project_id,
        r.current_tag_ids == timer.current_tag_ids,
        1 <= timer.remaining_seconds <= r.phase_total_seconds ==> r.remaining_seconds
            == timer.remaining_seconds,
        !(1 <= timer.remaining_seconds <= r.phase_total_seconds) ==> r.remaining_seconds
            == r.phase_total_seconds && !r.is_running,
        r.cycle_index == (if timer.cycle_index < 0 {
            0int
        } else {
            timer.cycle_index as int
        }),
        r.interruptions == (if timer.interruptions < 0 {
            0int
        } else {
            timer.interruptions as int
        }),
        r.is_running ==> timer.is_running,
        timer.started_at is None ==> r.started_at is None,
        (timer.started_at is Some && 0 <= timer.started_at->0 <= MAX_TS) ==> r.started_at
            == timer.started_at,
        (timer.is_running && 1 <= timer.remaining_seconds <= phase_secs(*settings, timer.phase)
            && timer.target_ends_at is Some && 0 <= timer.target_ends_at->0 <= MAX_TS
            + MAX_PHASE_SECONDS) ==> (r.is_running && r.target_ends_at == timer.target_ends_at),
{
    let mut t = timer;
    t.phase_total_seconds = settings.duration_for_phase_seconds(&t.phase);
    if t.remaining_seconds <= 0 || t.remaining_seconds > t.phase_total_seconds {
        t.remaining_seconds = t.phase_total_seconds;
        t.is_running = false;
        t.target_ends_at = None;
    }
    if t.cycle_index < 0 {
        t.cycle_index = 0;
    }
    if t.interruptions < 0 {
        t.interruptions = 0;
    }
    if let Some(s) = t.started_at {
        if s < 0 || s > MAX_TS {
            t.started_at = None;
        }
    }
    if let Some(e) = t.target_ends_at {
        if e < 0 || e > MAX_TS + MAX_PHASE_SECONDS {
            t.target_ends_at = None;
        }
    }
    if t.is_running && t.target_ends_at.is_none() {
        t.is_running = false;
    }
    if !t.is_running {
        t.target_ends_at = None;
    }
    t
}

} // verus!

