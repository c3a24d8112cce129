//! Reading sessions back: the filtered query over stored sessions, the
//! focus-day streak, and the aggregate summary figures.

use chrono::{Datelike, TimeZone};
use vstd::prelude::*;

use crate::models::{
    AnalyticsRange, AnalyticsSummary, SessionRecord, TimerPhase, spec_phase_from_value,
};

verus! {

/// Relies on chrono's `Utc::now`: the clock reading of the moment, in
/// epoch seconds. Nothing can be promised of the wall clock.
#[verifier::external_body]
pub fn now_ts() -> i64 {
    chrono::Utc::now().timestamp()
}

/// Relies on chrono's `Local` time zone conversion: the calendar day the
/// instant falls on, counted in days (chrono reports it as an `i32`, so
/// the result always fits one). Which day that is depends on the
/// machine's time zone, so nothing more is promised. An instant chrono
/// cannot place falls back to the current day, as the analytics code
/// expects.
#[verifier::external_body]
pub(crate) fn day_number(ts: i64) -> (r: i64)
    ensures
        -0x8000_0000 <= r <= 0x7fff_ffff,
{
    let date = match chrono::Local.timestamp_opt(ts, 0).single() {
        Some(dt) => dt.date_naive(),
        None => chrono::Local::now().date_naive(),
    };
    date.num_days_from_ce() as i64
}

/// Whether the day `d` occurs in the list.
pub open spec fn has_day(days: Seq<i64>, d: int) -> bool {
    exists|i: int| 0 <= i < days.len() && days[i] == d
}

fn contains_day(days: &Vec<i64>, d: i64) -> (r: bool)
    ensures
        r == has_day(days@, d as int),
{
    let mut i: usize = 0;
    while i < days.len()
        invariant
            0 <= i <= days.len(),
            forall|j: int| 0 <= j < i ==> days@[j] != d,
        decreases days.len() - i,
    {
        if days[i] == d {
            return true;
        }
        i = i + 1;
    }
    false
}

/// The streak ending today: how many consecutive days, counting backwards
/// from `today`, occur in the list. The walk stops once every listed day
/// must already have been visited.
pub fn streak_from_days(days: &Vec<i64>, today: i64) -> (r: i64)
    requires
        -0x8000_0000 <= today <= 0x7fff_ffff,
        forall|i: int| 0 <= i < days@.len() ==> -0x8000_0000 <= #[trigger] days@[i] <= 0x7fff_ffff,
    ensures
        0 <= r <= days@.len(),
        forall|k: int| 0 <= k < r ==> #[trigger] has_day(days@, today - k),
        r < days@.len() ==> !has_day(days@, today - r),
{
    let mut streak: i64 = 0;
    let mut cur: i64 = today;
    let mut n: usize = 0;
    loop
        invariant
            n <= days@.len(),
            streak == n,
            cur == today - n,
            -0x8000_0000 <= today <= 0x7fff_ffff,
            forall|i: int| 0 <= i < days@.len() ==> -0x8000_0000 <= #[trigger] days@[i]
                <= 0x7fff_ffff,
            n <= 0x1_0000_0001,
            forall|k: int| 0 <= k < n ==> #[trigger] has_day(days@, today - k),
        decreases days@.len() - n,
    {
        if n >= days.len() {
            return streak;
        }
        if !contains_day(days, cur) {
            return streak;
        }
        streak = streak + 1;
        n = n + 1;
        cur = cur - 1;
    }
}

/// The number of contiguous days of recorded focus work ending today:
/// each focus session with positive duration marks its local calendar
/// day, and the streak counts backwards from the current day.
pub fn calculate_streak_days(sessions: &Vec<SessionRecord>) -> (r: i64)
    ensures
        0 <= r <= sessions@.len(),
{
    let mut days: Vec<i64> = Vec::new();
    let mut i: usize = 0;
    while i < sessions.len()
        invariant
            0 <= i <= sessions.len(),
            days@.len() <= i,
            forall|j: int| 0 <= j < days@.len() ==> -0x8000_0000 <= #[trigger] days@[j]
                <= 0x7fff_ffff,
        decreases sessions.len() - i,
    {
        let s = &sessions[i];
        if s.phase == TimerPhase::Focus && s.duration_sec > 0 {
            let d = day_number(s.ended_at);
            if !contains_day(&days, d) {
                days.push(d);
            }
        }
        i = i + 1;
    }
    let today = day_number(now_ts());
    let streak = streak_from_days(&days, today);
    streak
}

/// Focus seconds over a prefix of the session list.
pub open spec fn spec_focus_seconds(s: Seq<SessionRecord>) -> int
    decreases s.len(),
{
    if s.len() == 0 {
        0
    } else {
        spec_focus_seconds(s.drop_last()) + (if s.last().phase == TimerPhase::Focus {
            s.last().duration_sec as int
        } else {
            0
        })
    }
}

/// Completed focus sessions in the list.
pub open spec fn spec_completed_pomodoros(s: Seq<SessionRecord>) -> int
    decreases s.len(),
{
    if s.len() == 0 {
        0
    } else {
        spec_completed_pomodoros(s.drop_last()) + (
        if s.last().phase == TimerPhase::Focus && s.last().completed {
            1int
        } else {
            0int
        })
    }
}

/// Interruptions across focus sessions in the list.
pub open spec fn spec_focus_interruptions(s: Seq<SessionRecord>) -> int
    decreases s.len(),
{
    if s.len() == 0 {
        0
    } else {
        spec_focus_interruptions(s.drop_last()) + (if s.last().phase == TimerPhase::Focus {
            s.last().interruptions as int
        } else {
            0
        })
    }
}

/// Focus sessions with positive duration in the list: the sessions that
/// can mark a local day.
pub open spec fn spec_positive_focus_count(s: Seq<SessionRecord>) -> int
    decreases s.len(),
{
    if s.len() == 0 {
        0
    } else {
        spec_positive_focus_count(s.drop_last()) + (
        if s.last().phase == TimerPhase::Focus && s.last().duration_sec > 0 {
            1int
        } else {
            0int
        })
    }
}

/// An average of `total` spread over `d` buckets.
pub open spec fn avg_over(total: int, d: int) -> int {
    total / d
}

/// Every figure a session list may contribute stays in a range the sums
/// cannot overflow from.
pub open spec fn bounded_sessions(s: Seq<SessionRecord>) -> bool {
    &&& s.len() <= 1_000_000
    &&& forall|i: int| 0 <= i < s.len() ==> 0 <= #[trigger] s[i].duration_sec <= 1_000_000
    &&& forall|i: int| 0 <= i < s.len() ==> 0 <= #[trigger] s[i].interruptions <= 1_000_000
}

proof fn lemma_focus_sums_bounded(s: Seq<SessionRecord>)
    requires
        bounded_sessions(s),
    ensures
        0 <= spec_focus_seconds(s) <= s.len() * 1_000_000,
        0 <= spec_completed_pomodoros(s) <= s.len(),
        0 <= spec_focus_interruptions(s) <= s.len() * 1_000_000,
    decreases s.len(),
{
    if s.len() > 0 {
        assert(bounded_sessions(s.drop_last()));
        lemma_focus_sums_bounded(s.drop_last());
    }
}

/// Aggregates a session list: total focus seconds, completed pomodoro
/// count and interruption total are exact sums over the focus sessions;
/// the average divides the total over the distinct local days with
/// positive focus work — some number of days between one and the count
/// of such sessions, zero days meaning a zero average — and the streak
/// counts backwards from today.
pub fn summarize_sessions(sessions: &Vec<SessionRecord>) -> (r: AnalyticsSummary)
    requires
        bounded_sessions(sessions@),
    ensures
        r.total_focus_sec == spec_focus_seconds(sessions@),
        r.completed_pomodoros == spec_completed_pomodoros(sessions@),
        r.interruptions == spec_focus_interruptions(sessions@),
        0 <= r.streak_days <= sessions@.len(),
        0 <= r.avg_daily_focus_sec <= r.total_focus_sec,
        spec_positive_focus_count(sessions@) == 0 ==> r.avg_daily_focus_sec == 0,
        spec_positive_focus_count(sessions@) > 0 ==> (exists|d: int|
            1 <= d <= spec_positive_focus_count(sessions@) && r.avg_daily_focus_sec == #[trigger] avg_over(
                spec_focus_seconds(sessions@),
                d,
            )),
{
    let mut total_focus_sec: i64 = 0;
    let mut completed_pomodoros: i64 = 0;
    let mut interruptions: i64 = 0;
    let mut days: Vec<i64> = Vec::new();
    let mut i: usize = 0;
    while i < sessions.len()
        invariant
            0 <= i <= sessions.len(),
            bounded_sessions(sessions@),
            total_focus_sec == spec_focus_seconds(sessions@.subrange(0, i as int)),
            completed_pomodoros == spec_completed_pomodoros(sessions@.subrange(0, i as int)),
            interruptions == spec_focus_interruptions(sessions@.subrange(0, i as int)),
            days@.len() <= i,
            days@.len() <= spec_positive_focus_count(sessions@.subrange(0, i as int)),
            (days@.len() > 0) == (spec_positive_focus_count(sessions@.subrange(0, i as int)) > 0),
        decreases sessions.len() - i,
    {
        proof {
            assert(bounded_sessions(sessions@.subrange(0, i as int)));
            lemma_focus_sums_bounded(sessions@.subrange(0, i as int));
            assert(sessions@.subrange(0, i + 1).drop_last() == sessions@.subrange(0, i as int));
            assert(sessions@.subrange(0, i + 1).last() == sessions@[i as int]);
        }
        let s = &sessions[i];
        if s.phase == TimerPhase::Focus {
            total_focus_sec = total_focus_sec + s.duration_sec;
            interruptions = interruptions + s.interruptions;
            if s.completed {
                completed_pomodoros = completed_pomodoros + 1;
            }
            if s.duration_sec > 0 {
                let d = day_number(s.ended_at);
                if !contains_day(&days, d) {
                    days.push(d);
                }
            }
        }
        i = i + 1;
    }
    proof {
        assert(sessions@.subrange(0, sessions@.len() as int) == sessions@);
        lemma_focus_sums_bounded(sessions@);
    }
    let avg_daily_focus_sec: i64 = if days.len() == 0 {
        0
    } else {
        total_focus_sec / (days.len() as i64)
    };
    proof {
        if days@.len() > 0 {
            let dd = days@.len() as int;
            assert(1 <= dd <= spec_positive_focus_count(sessions@));
            assert(avg_daily_focus_sec == avg_over(spec_focus_seconds(sessions@), dd));
        }
    }
    let streak_days = calculate_streak_days(sessions);
    AnalyticsSummary {
        total_focus_sec,
        completed_pomodoros,
        streak_days,
        interruptions,
        avg_daily_focus_sec,
    }
}

/// Converts a raw stored phase column to a phase; an unknown identifier
/// is an error naming the offending value.
pub fn phase_from_db(value: String) -> (r: Result<TimerPhase, String>)
    ensures
        match spec_phase_from_value(value@) {
            Some(p) => r == Ok::<TimerPhase, String>(p),
            None => (r matches Err(e) && e@ == "unknown timer phase: "@
                + crate::models::spec_trim_quotes(value@)),
        },
{
    TimerPhase::from_db_value(value.as_str())
}

/// The SQL text selecting sessions under the given filter, newest first,
/// together with its placeholder values in order.
pub fn build_sessions_query(range: &AnalyticsRange) -> (r: (String, Vec<i64>))
    ensures
        r.0@ == (
        "SELECT id, started_at, ended_at, phase, duration_sec, completed, interruptions, project_id FROM sessions WHERE 1 = 1"@
            + (if range.from is Some {
            " AND ended_at >= ?"@
        } else {
            Seq::<char>::empty()
        }) + (if range.to is Some {
            " AND ended_at <= ?"@
        } else {
            Seq::<char>::empty()
        }) + (if range.project_id is Some {
            " AND project_id = ?"@
        } else {
            Seq::<char>::empty()
        }) + (if range.tag_id is Some {
            " AND EXISTS (SELECT 1 FROM session_tags st WHERE st.session_id = sessions.id AND st.tag_id = ?)"@
        } else {
            Seq::<char>::empty()
        }) + " ORDER BY ended_at DESC"@),
        r.1@ == ((if range.from is Some {
            seq![range.from->0]
        } else {
            Seq::<i64>::empty()
        }) + (if range.to is Some {
            seq![range.to->0]
        } else {
            Seq::<i64>::empty()
        }) + (if range.project_id is Some {
            seq![range.project_id->0]
        } else {
            Seq::<i64>::empty()
        }) + (if range.tag_id is Some {
            seq![range.tag_id->0]
        } else {
            Seq::<i64>::empty()
        })),
{
    let mut query = String::from_str(
        "SELECT id, started_at, ended_at, phase, duration_sec, completed, interruptions, project_id FROM sessions WHERE 1 = 1",
    );
    let mut values: Vec<i64> = Vec::new();

    if let Some(from) = range.from {
        query.append(" AND ended_at >= ?");
        values.push(from);
    }
    if let Some(to) = range.to {
        query.append(" AND ended_at <= ?");
        values.push(to);
    }
    if let Some(project_id) = range.project_id {
        query.append(" AND project_id = ?");
        values.push(project_id);
    }
    if let Some(tag_id) = range.tag_id {
        query.append(
            " AND EXISTS (SELECT 1 FROM session_tags st WHERE st.session_id = sessions.id AND st.tag_id = ?)",
        );
        values.push(tag_id);
    }

    query.append(" ORDER BY ended_at DESC");

    (query, values)
}

} // verus!
