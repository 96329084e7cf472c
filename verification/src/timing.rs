//! Delay-time resolution: the Write's Time controls -> a delay in frames.
//!
//! The musical conversions (`beats * 60 / bpm * fps`, `ms / 1000 * fps`, each
//! rounded to whole frames) are floating point and are done by the caller; this
//! module holds the decision that follows them: which conversion a mode uses,
//! the fallback when the host reports no tempo, and the final clamp.

use vstd::prelude::*;
use crate::ring::clamp_int;

verus! {

/// How the tape length is specified.
#[derive(Clone, Copy, PartialEq, Eq, Debug)]
pub enum SyncMode {
    Subdivision,
    Ms,
    Frames,
}

/// Frames used when the host reports no tempo in Subdivision mode.
pub const NO_TEMPO_FRAMES: u32 = 30;

/// The delay in frames that [`delay_frames`] resolves to.
pub open spec fn resolved_delay_frames(
    mode: SyncMode,
    beat_frames: int,
    ms_frames: int,
    frames_raw: int,
    tempo_known: bool,
    max_frames: int,
) -> int {
    match mode {
        SyncMode::Subdivision => if !tempo_known {
            if NO_TEMPO_FRAMES < max_frames {
                NO_TEMPO_FRAMES as int
            } else {
                max_frames
            }
        } else {
            clamp_int(beat_frames, 1, max_frames)
        },
        SyncMode::Ms => clamp_int(ms_frames, 1, max_frames),
        SyncMode::Frames => clamp_int(frames_raw, 1, max_frames),
    }
}

/// Resolve the Time controls to a delay in frames, clamped to `1..=max_frames`.
///
/// - `Subdivision`: `beat_frames` (the subdivision converted at the host tempo
///   and frame rate). With no tempo (`tempo_known == false`, i.e. BPM <= 0) the
///   result is `min(30, max_frames)` and the subdivision is ignored.
/// - `Ms`: `ms_frames` (the millisecond time converted at the frame rate).
/// - `Frames`: `frames_raw`, used directly.
///
/// The clamp needs `max_frames >= 1`; only the no-tempo fallback does without it.
pub fn delay_frames(
    mode: SyncMode,
    beat_frames: u32,
    ms_frames: u32,
    frames_raw: u32,
    tempo_known: bool,
    max_frames: u32,
) -> (d: u32)
    requires
        max_frames >= 1 || (mode is Subdivision && !tempo_known),
    ensures
        d == resolved_delay_frames(
            mode,
            beat_frames as int,
            ms_frames as int,
            frames_raw as int,
            tempo_known,
            max_frames as int,
        ),
        d <= max_frames,
        max_frames >= 1 ==> d >= 1,
        // The mode's value is used as is when in range, and saturates at the ends.
        mode is Ms ==> (1 <= ms_frames <= max_frames ==> d == ms_frames) && (ms_frames
            >= max_frames >= 1 ==> d == max_frames) && (ms_frames == 0 ==> d == 1),
        mode is Frames ==> (1 <= frames_raw <= max_frames ==> d == frames_raw) && (frames_raw
            >= max_frames >= 1 ==> d == max_frames) && (frames_raw == 0 ==> d == 1),
        mode is Subdivision && tempo_known ==> (1 <= beat_frames <= max_frames ==> d
            == beat_frames) && (beat_frames >= max_frames >= 1 ==> d == max_frames) && (beat_frames
            == 0 ==> d == 1),
        mode is Subdivision && !tempo_known ==> (max_frames >= NO_TEMPO_FRAMES ==> d
            == NO_TEMPO_FRAMES) && (max_frames < NO_TEMPO_FRAMES ==> d == max_frames),
{
    let raw: u32 = match mode {
        SyncMode::Subdivision => {
            if !tempo_known {
                return if NO_TEMPO_FRAMES < max_frames {
                    NO_TEMPO_FRAMES
                } else {
                    max_frames
                };
            }
            beat_frames
        },
        SyncMode::Ms => ms_frames,
        SyncMode::Frames => frames_raw,
    };
    if raw < 1 {
        1
    } else if raw > max_frames {
        max_frames
    } else {
        raw
    }
}

/// The resolved delay is monotone in the mode's value and saturates at
/// `max_frames`: a longer time never gives a shorter delay, and any time at or
/// beyond the tape gives the whole tape.
pub proof fn lemma_delay_frames_monotone(
    mode: SyncMode,
    v1: int,
    v2: int,
    frames_raw: int,
    max_frames: int,
)
    requires
        v1 <= v2,
        max_frames >= 1,
        !(mode is Frames),
    ensures
        resolved_delay_frames(mode, v1, v1, frames_raw, true, max_frames) <= resolved_delay_frames(
            mode,
            v2,
            v2,
            frames_raw,
            true,
            max_frames,
        ),
        v2 >= max_frames ==> resolved_delay_frames(mode, v2, v2, frames_raw, true, max_frames)
            == max_frames,
        1 <= v1 <= max_frames ==> resolved_delay_frames(mode, v1, v1, frames_raw, true, max_frames)
            == v1,
{
}

} // verus!
