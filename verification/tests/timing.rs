use feedback_tape::timing::{delay_frames, SyncMode};

const MAX: u32 = 120;

/// The musical conversion the caller performs before resolving:
/// `round(secs * fps)` as whole frames.
fn to_frames(secs: f32, fps: f32) -> u32 {
    (secs * fps).round() as u32
}

fn resolve(mode: SyncMode, beats: f32, ms: f32, raw: u32, bpm: f32, fps: f32, max: u32) -> u32 {
    let tempo_known = bpm > 0.0;
    let beat_frames = if tempo_known { to_frames(beats * (60.0 / bpm), fps) } else { 0 };
    let ms_frames = to_frames(ms / 1000.0, fps);
    delay_frames(mode, beat_frames, ms_frames, raw, tempo_known, max)
}

#[test]
fn frames_mode_passthrough_is_clamped() {
    assert_eq!(resolve(SyncMode::Frames, 0.0, 0.0, 30, 120.0, 60.0, MAX), 30);
    assert_eq!(resolve(SyncMode::Frames, 0.0, 0.0, 0, 120.0, 60.0, MAX), 1);
    assert_eq!(resolve(SyncMode::Frames, 0.0, 0.0, 999, 120.0, 60.0, MAX), MAX);
}

#[test]
fn ms_mode_uses_ms_frames() {
    assert_eq!(resolve(SyncMode::Ms, 0.0, 500.0, 0, 120.0, 60.0, MAX), 30);
    assert_eq!(resolve(SyncMode::Ms, 0.0, 2000.0, 0, 120.0, 60.0, MAX), 120);
    assert_eq!(resolve(SyncMode::Ms, 0.0, 16.0, 0, 120.0, 60.0, MAX), 1);
}

#[test]
fn subdivision_mode_uses_beat_frames() {
    assert_eq!(resolve(SyncMode::Subdivision, 1.0, 0.0, 0, 120.0, 60.0, MAX), 30);
    assert_eq!(resolve(SyncMode::Subdivision, 4.0, 0.0, 0, 120.0, 60.0, MAX), 120);
    assert_eq!(resolve(SyncMode::Subdivision, 1.0, 0.0, 0, 120.0, 30.0, MAX), 15);
}

#[test]
fn no_tempo_falls_back_to_30() {
    assert_eq!(delay_frames(SyncMode::Subdivision, 999, 0, 0, false, MAX), 30);
    assert_eq!(resolve(SyncMode::Subdivision, 0.25, 0.0, 0, -5.0, 60.0, MAX), 30);
    assert_eq!(delay_frames(SyncMode::Subdivision, 60, 0, 0, false, 10), 10);
    // the fallback is not clamped up: even a zero maximum is returned as is
    assert_eq!(delay_frames(SyncMode::Subdivision, 60, 0, 0, false, 0), 0);
}

#[test]
fn result_is_clamped_into_range() {
    assert_eq!(resolve(SyncMode::Subdivision, 16.0, 0.0, 0, 60.0, 60.0, MAX), MAX);
    assert!(resolve(SyncMode::Ms, 0.0, 1.0, 0, 120.0, 60.0, MAX) >= 1);
}

#[test]
fn mode_selects_its_own_conversion() {
    assert_eq!(delay_frames(SyncMode::Subdivision, 7, 9, 11, true, MAX), 7);
    assert_eq!(delay_frames(SyncMode::Ms, 7, 9, 11, true, MAX), 9);
    assert_eq!(delay_frames(SyncMode::Frames, 7, 9, 11, true, MAX), 11);
    // tempo only matters in Subdivision mode
    assert_eq!(delay_frames(SyncMode::Ms, 7, 9, 11, false, MAX), 9);
    assert_eq!(delay_frames(SyncMode::Frames, 7, 9, 11, false, MAX), 11);
}
