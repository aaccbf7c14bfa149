//! The state-dependent gating policy: which scene states may fire, the
//! cooldown that debounces each of them, and the confidence of a firing.

use vstd::prelude::*;

verus! {

/// Minimum time between two firings on `Volatile`, in milliseconds.
pub const VOLATILE_COOLDOWN_MS: u64 = 1000;

/// Minimum time between two firings on `Disturbed`, in milliseconds.
pub const DISTURBED_COOLDOWN_MS: u64 = 250;

/// Confidence of a firing on `Volatile`, in percent.
pub const VOLATILE_CONFIDENCE: u32 = 70;

/// Confidence of a firing on `Disturbed` before any significance bonus.
pub const BASE_CONFIDENCE: u32 = 95;

/// Bonus added for each new or completed significant moment.
pub const MOMENT_BONUS: u32 = 5;

/// The highest confidence that is ever reported.
pub const MAX_CONFIDENCE: u32 = 100;

/// The analyzer's coarse belief about how active the scene is.
#[derive(Clone, Copy, Debug, PartialEq, Eq, Structural)]
pub enum SceneState {
    Calibrating,
    Stable,
    Volatile,
    Disturbed,
}

/// What the analyzer reports about significant moments in a frame.
#[derive(Clone, Copy, Debug, PartialEq, Eq, Structural)]
pub enum Report {
    /// Tracked objects entered or left significance: how many of each.
    SignificantMention { new_moments: usize, completed_moments: usize },
    /// Nothing significant to mention.
    NoMention,
}

/// The analyzer's verdict on one frame.
#[derive(Clone, Copy, Debug, PartialEq, Eq, Structural)]
pub struct Analysis {
    pub scene_state: SceneState,
    pub report: Report,
    pub tracked_object_count: usize,
}

/// The label of a scene state, as it is written to logs.
pub open spec fn scene_label(s: SceneState) -> Seq<char> {
    match s {
        SceneState::Calibrating => "CALIBRATING"@,
        SceneState::Stable => "STABLE"@,
        SceneState::Volatile => "VOLATILE"@,
        SceneState::Disturbed => "DISTURBED"@,
    }
}

impl SceneState {
    /// The state's label for external logging.
    pub fn label(&self) -> (r: String)
        ensures
            r@ == scene_label(*self),
    {
        match self {
            SceneState::Calibrating => "CALIBRATING".to_owned(),
            SceneState::Stable => "STABLE".to_owned(),
            SceneState::Volatile => "VOLATILE".to_owned(),
            SceneState::Disturbed => "DISTURBED".to_owned(),
        }
    }
}

/// Whether a cooldown that started at `last` (never, if `None`) is over at `now`.
pub open spec fn cooldown_over(last: Option<u64>, now: u64, cooldown: u64) -> bool {
    match last {
        None => true,
        Some(t) => now as int - t as int >= cooldown as int,
    }
}

/// How long, at `now`, a cooldown that started at `last` still runs.
pub open spec fn cooldown_remaining(last: Option<u64>, now: u64, cooldown: u64) -> int {
    match last {
        None => 0,
        Some(t) => if t as int + cooldown as int - now as int > 0 {
            t as int + cooldown as int - now as int
        } else {
            0
        },
    }
}

/// The number of new and completed significant moments in a report.
pub open spec fn moment_count(r: Report) -> int {
    match r {
        Report::SignificantMention { new_moments, completed_moments } => new_moments as int
            + completed_moments as int,
        Report::NoMention => 0,
    }
}

/// Confidence of a `Disturbed` firing with the given number of moments:
/// the base plus a bonus per moment, capped at the maximum.
pub open spec fn disturbed_confidence(moments: int) -> int {
    let raw = BASE_CONFIDENCE as int + MOMENT_BONUS as int * moments;
    if raw <= MAX_CONFIDENCE as int {
        raw
    } else {
        MAX_CONFIDENCE as int
    }
}

/// A span as a `u64` reports it: itself, or `u64::MAX` where it is longer.
pub open spec fn capped_u64(x: int) -> int {
    if x <= u64::MAX as int {
        x
    } else {
        u64::MAX as int
    }
}

/// Decides whether a cooldown that started at `last` is over at `now`.
pub fn cooldown_elapsed(last: Option<u64>, now: u64, cooldown: u64) -> (r: bool)
    ensures
        r == cooldown_over(last, now, cooldown),
{
    match last {
        None => true,
        Some(t) => now >= t && now - t >= cooldown,
    }
}

/// The time left, at `now`, of a cooldown that started at `last`; a span
/// too long for `u64` is reported as `u64::MAX`.
pub fn remaining_cooldown(last: Option<u64>, now: u64, cooldown: u64) -> (r: u64)
    ensures
        r as int == capped_u64(cooldown_remaining(last, now, cooldown)),
{
    match last {
        None => 0,
        Some(t) => {
            if now >= t {
                let elapsed = now - t;
                if elapsed >= cooldown {
                    0
                } else {
                    cooldown - elapsed
                }
            } else {
                (t - now).saturating_add(cooldown)
            }
        },
    }
}

/// The confidence of a `Disturbed` firing for the given report.
pub fn significance_confidence(report: &Report) -> (r: u32)
    ensures
        r as int == disturbed_confidence(moment_count(*report)),
{
    let moments = match report {
        Report::SignificantMention { new_moments, completed_moments } => new_moments.saturating_add(
            *completed_moments,
        ),
        Report::NoMention => 0,
    };
    let headroom = ((MAX_CONFIDENCE - BASE_CONFIDENCE) / MOMENT_BONUS) as usize;
    if moments > headroom {
        assert(MOMENT_BONUS as int * moment_count(*report) > MAX_CONFIDENCE - BASE_CONFIDENCE)
            by (nonlinear_arith)
            requires
                moment_count(*report) >= moments as int,
                moments as int > headroom as int,
                headroom as int == (MAX_CONFIDENCE - BASE_CONFIDENCE) as int / MOMENT_BONUS as int,
        ;
        MAX_CONFIDENCE
    } else {
        BASE_CONFIDENCE + MOMENT_BONUS * (moments as u32)
    }
}

} // verus!
