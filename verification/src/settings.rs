//! Settings hygiene: the range clamps, theme normalization, the partial
//! settings update, the remote-control token guarantee, and keeping an
//! idle timer in step with freshly changed durations.

use rand::Rng;
use vstd::prelude::*;

use crate::models::{
    AppSettings, AppSettingsPatch, TimerState, phase_secs, valid_settings, wf_timer,
};

verus! {

/// What `str::trim` returns for the given characters.
pub uninterp spec fn trim_of(s: Seq<char>) -> Seq<char>;

/// What `str::to_lowercase` returns for the given characters.
pub uninterp spec fn lower_of(s: Seq<char>) -> Seq<char>;

/// Relies on str::trim: leading and trailing whitespace removed, a result
/// that depends on the characters alone; an empty string stays empty.
#[verifier::external_body]
fn trim_str(s: &str) -> (r: String)
    ensures
        r@ == trim_of(s@),
        r@.len() <= s@.len(),
        s@.len() == 0 ==> r@.len() == 0,
{
    s.trim().to_owned()
}

/// Relies on str::to_lowercase: a result that depends on the characters
/// alone; an empty string stays empty.
#[verifier::external_body]
fn lowercase_str(s: &str) -> (r: String)
    ensures
        r@ == lower_of(s@),
        s@.len() == 0 ==> r@.len() == 0,
{
    s.to_lowercase()
}

/// A character of the generated token alphabet.
pub open spec fn is_alnum_char(c: char) -> bool {
    ('A' <= c && c <= 'Z') || ('a' <= c && c <= 'z') || ('0' <= c && c <= '9')
}

/// Relies on rand's thread-local generator with the `Alphanumeric`
/// distribution: 32 characters, each drawn from A-Z, a-z, 0-9. Nothing
/// more is promised of a random value. An alphanumeric string holds no
/// whitespace, so `str::trim` leaves it unchanged.
#[verifier::external_body]
fn generate_remote_token() -> (r: String)
    ensures
        r@.len() == 32,
        forall|i: int| 0 <= i < r@.len() ==> is_alnum_char(#[trigger] r@[i]),
        trim_of(r@) == r@,
{
    rand::thread_rng()
        .sample_iter(&rand::distributions::Alphanumeric)
        .take(32)
        .map(char::from)
        .collect()
}

pub open spec fn spec_clamp(v: int, lo: int, hi: int) -> int {
    if v < lo {
        lo
    } else if v > hi {
        hi
    } else {
        v
    }
}

fn clamp_i64(v: i64, lo: i64, hi: i64) -> (r: i64)
    requires
        lo <= hi,
    ensures
        r == spec_clamp(v as int, lo as int, hi as int),
{
    if v < lo {
        lo
    } else if v > hi {
        hi
    } else {
        v
    }
}

/// Clamps every numeric setting into its documented range and pins the
/// theme to one of its two values; everything else passes through.
pub fn normalize_settings(settings: AppSettings) -> (r: AppSettings)
    ensures
        r.focus_min == spec_clamp(settings.focus_min as int, 1, 180),
        r.short_break_min == spec_clamp(settings.short_break_min as int, 1, 60),
        r.long_break_min == spec_clamp(settings.long_break_min as int, 1, 90),
        r.long_break_every == spec_clamp(settings.long_break_every as int, 2, 10),
        r.remote_control_port == spec_clamp(settings.remote_control_port as int, 1024, 65535),
        r.theme@ == (if settings.theme@ == "dark"@ {
            "dark"@
        } else {
            "light"@
        }),
        r.sound_enabled == settings.sound_enabled,
        r.notifications_enabled == settings.notifications_enabled,
        r.remote_control_enabled == settings.remote_control_enabled,
        r.remote_control_token == settings.remote_control_token,
        valid_settings(r),
{
    let mut s = settings;
    s.focus_min = clamp_i64(s.focus_min, 1, 180);
    s.short_break_min = clamp_i64(s.short_break_min, 1, 60);
    s.long_break_min = clamp_i64(s.long_break_min, 1, 90);
    s.long_break_every = clamp_i64(s.long_break_every, 2, 10);
    s.remote_control_port = clamp_i64(s.remote_control_port, 1024, 65535);
    let dark = String::from_str("dark");
    s.theme = if s.theme == dark {
        dark
    } else {
        String::from_str("light")
    };
    s
}

/// Guarantees a usable control token: a token that is blank after
/// trimming is replaced by a fresh random 32-character one; any other
/// token is left exactly as it was. Either way the final token has
/// non-whitespace content. No other field changes.
pub fn ensure_remote_token(settings: &mut AppSettings)
    ensures
        *final(settings) == (AppSettings {
            remote_control_token: final(settings).remote_control_token,
            ..*old(settings)
        }),
        trim_of(old(settings).remote_control_token@).len() == 0
            ==> final(settings).remote_control_token@.len() == 32,
        trim_of(old(settings).remote_control_token@).len() != 0
            ==> final(settings).remote_control_token == old(settings).remote_control_token,
        trim_of(final(settings).remote_control_token@).len() != 0,
{
    let trimmed = trim_str(settings.remote_control_token.as_str());
    if trimmed.as_str().is_empty() {
        settings.remote_control_token = generate_remote_token();
    }
}

/// The theme characters a patch leaves in place before the final clamp:
/// a present theme is trimmed and lowercased, an absent one is kept.
pub open spec fn patched_theme(s: AppSettings, p: AppSettingsPatch) -> Seq<char> {
    match p.theme {
        Some(v) => lower_of(trim_of(v@)),
        None => s.theme@,
    }
}

/// The token characters a patch leaves in place before the blank check.
pub open spec fn patched_token(s: AppSettings, p: AppSettingsPatch) -> Seq<char> {
    match p.remote_control_token {
        Some(v) => v@,
        None => s.remote_control_token@,
    }
}

pub open spec fn patched_field(cur: int, f: Option<i64>) -> int {
    match f {
        Some(v) => v as int,
        None => cur,
    }
}

pub open spec fn patched_flag(cur: bool, f: Option<bool>) -> bool {
    match f {
        Some(v) => v,
        None => cur,
    }
}

/// A partial settings update: present fields replace current ones, the
/// theme is trimmed and lowercased, the result is clamped into its valid
/// ranges, and a blank token is replaced by a fresh random one, so the
/// final token always has non-whitespace content.
pub fn apply_settings_patch(settings: AppSettings, patch: AppSettingsPatch) -> (r: AppSettings)
    ensures
        r.focus_min == spec_clamp(patched_field(settings.focus_min as int, patch.focus_min), 1, 180),
        r.short_break_min == spec_clamp(
            patched_field(settings.short_break_min as int, patch.short_break_min),
            1,
            60,
        ),
        r.long_break_min == spec_clamp(
            patched_field(settings.long_break_min as int, patch.long_break_min),
            1,
            90,
        ),
        r.long_break_every == spec_clamp(
            patched_field(settings.long_break_every as int, patch.long_break_every),
            2,
            10,
        ),
        r.remote_control_port == spec_clamp(
            patched_field(settings.remote_control_port as int, patch.remote_control_port),
            1024,
            65535,
        ),
        r.theme@ == (if patched_theme(settings, patch) == "dark"@ {
            "dark"@
        } else {
            "light"@
        }),
        r.sound_enabled == patched_flag(settings.sound_enabled, patch.sound_enabled),
        r.notifications_enabled == patched_flag(
            settings.notifications_enabled,
            patch.notifications_enabled,
        ),
        r.remote_control_enabled == patched_flag(
            settings.remote_control_enabled,
            patch.remote_control_enabled,
        ),
        trim_of(patched_token(settings, patch)).len() == 0 ==> r.remote_control_token@.len() == 32,
        trim_of(patched_token(settings, patch)).len() != 0 ==> r.remote_control_token@
            == patched_token(settings, patch),
        trim_of(r.remote_control_token@).len() != 0,
        valid_settings(r),
{
    let mut s = settings;
    if let Some(v) = patch.focus_min {
        s.focus_min = v;
    }
    if let Some(v) = patch.short_break_min {
        s.short_break_min = v;
    }
    if let Some(v) = patch.long_break_min {
        s.long_break_min = v;
    }
    if let Some(v) = patch.long_break_every {
        s.long_break_every = v;
    }
    if let Some(v) = patch.theme {
        let trimmed = trim_str(v.as_str());
        s.theme = lowercase_str(trimmed.as_str());
    }
    if let Some(v) = patch.sound_enabled {
        s.sound_enabled = v;
    }
    if let Some(v) = patch.notifications_enabled {
        s.notifications_enabled = v;
    }
    if let Some(v) = patch.remote_control_enabled {
        s.remote_control_enabled = v;
    }
    if let Some(v) = patch.remote_control_port {
        s.remote_control_port = v;
    }
    if let Some(v) = patch.remote_control_token {
        s.remote_control_token = v;
    }
    let mut s = normalize_settings(s);
    ensure_remote_token(&mut s);
    s
}

/// After a settings change, an idle timer is resized to the new length of
/// its current phase and its start/deadline bookkeeping is cleared; a
/// running timer keeps its old durations until the next boundary.
pub fn apply_settings_to_idle_timer(timer: &mut TimerState, settings: &AppSettings)
    requires
        wf_timer(*old(timer)),
        valid_settings(*settings),
    ensures
        old(timer).is_running ==> *final(timer) == *old(timer),
        !old(timer).is_running ==> *final(timer) == (TimerState {
            phase_total_seconds: phase_secs(*settings, old(timer).phase) as i64,
            remaining_seconds: phase_secs(*settings, old(timer).phase) as i64,
            started_at: None,
            target_ends_at: None,
            ..*old(timer)
        }),
        wf_timer(*final(timer)),
{
    if !timer.is_running {
        timer.phase_total_seconds = settings.duration_for_phase_seconds(&timer.phase);
        timer.remaining_seconds = timer.phase_total_seconds;
        timer.started_at = None;
        timer.target_ends_at = None;
    }
}

} // verus!
