use feedback_tape::delay_line::{
    ChannelBuffer, DelayLineRegistry, Mode, SyncMode, FRAME_THRESHOLD_NANOS, LINE_BUFFER_DEPTH,
};
use feedback_tape::timing;

const MS: u64 = 1_000_000;

#[test]
fn first_write_allocates_and_advances() {
    let mut reg = DelayLineRegistry::new();
    assert_eq!(reg.read_channel(0), None);
    let fw = reg.begin_frame_write(0, 64, 32, 5 * MS);
    assert!(fw.allocate);
    assert!(fw.is_first);
    assert_eq!(fw.write_pos, 1);
    assert_eq!(fw.replaced, None);
    reg.attach_gl(0, 10, 11);
    assert_eq!(reg.read_channel(0), Some((10, 1, 64, 32)));
}

#[test]
fn writes_within_two_ms_share_a_frame() {
    let mut reg = DelayLineRegistry::new();
    reg.begin_frame_write(1, 8, 8, 100 * MS);
    let fw = reg.begin_frame_write(1, 8, 8, 101 * MS);
    assert!(!fw.is_first);
    assert_eq!(fw.write_pos, 1);
    let fw = reg.begin_frame_write(1, 8, 8, 100 * MS + FRAME_THRESHOLD_NANOS);
    assert!(!fw.is_first);
    let fw = reg.begin_frame_write(1, 8, 8, 100 * MS + FRAME_THRESHOLD_NANOS + 1);
    assert!(fw.is_first);
    assert_eq!(fw.write_pos, 2);
    // a clock reading from before the last advance never starts a frame
    let fw = reg.begin_frame_write(1, 8, 8, 50 * MS);
    assert!(!fw.is_first);
}

#[test]
fn write_pos_wraps_at_depth() {
    let mut reg = DelayLineRegistry::new();
    let mut now = 0u64;
    let mut last = 0;
    for _ in 0..LINE_BUFFER_DEPTH + 1 {
        now += 16 * MS;
        last = reg.begin_frame_write(0, 4, 4, now).write_pos;
    }
    assert_eq!(last, 1); // 241 advances from 0, mod 240
}

#[test]
fn resize_replaces_and_returns_the_old_tape() {
    let mut reg = DelayLineRegistry::new();
    reg.begin_frame_write(0, 4, 4, 0);
    reg.attach_gl(0, 3, 4);
    let fw = reg.begin_frame_write(0, 8, 4, 1);
    assert!(fw.allocate);
    assert!(fw.is_first);
    assert_eq!(fw.write_pos, 1);
    let old = fw.replaced.unwrap();
    assert_eq!((old.texture_array, old.fbo, old.width), (3, 4, 4));
    assert_eq!(reg.read_channel(0), Some((0, 1, 8, 4)));
}

#[test]
fn acquire_release_only_act_on_allocated_tapes() {
    let mut reg = DelayLineRegistry::new();
    reg.acquire(0); // no tape yet: ignored
    assert_eq!(reg.release(0), None);
    reg.begin_frame_write(0, 4, 4, 0);
    reg.attach_gl(0, 3, 4);
    reg.acquire(0);
    reg.acquire(0);
    assert_eq!(reg.release(0), None);
    let freed: ChannelBuffer = reg.release(0).unwrap();
    assert_eq!((freed.texture_array, freed.fbo, freed.refcount), (3, 4, 0));
    assert_eq!(reg.read_channel(0), None);
}

#[test]
fn mode_and_sync_mode_values() {
    assert_ne!(Mode::Read, Mode::Write);
    assert_eq!(SyncMode::Subdivision.timing_mode(), timing::SyncMode::Subdivision);
    assert_eq!(SyncMode::Ms.timing_mode(), timing::SyncMode::Ms);
    assert_eq!(SyncMode::Frames.timing_mode(), timing::SyncMode::Frames);
    assert_eq!(DelayLineRegistry::buffer_depth(), 240);
}
