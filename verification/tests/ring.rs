use feedback_tape::ring::Ring;

/// Simulates the per-frame loop: a shared `frame_index` advances once per
/// frame; each frame the Tap reads `read_slot` before the Write records a
/// unique marker into `write_slot`. Returns the frame offset at which the
/// marker recorded on frame 0 is first read back.
fn simulate_first_reproduction(loop_length: u32, max_loop: u32) -> u32 {
    let ring = Ring::new(loop_length, max_loop);
    let buf_size = ring.buf_size();
    let mut slot_marker: Vec<Option<u32>> = vec![None; buf_size as usize];

    let mut frame_index: u64 = 1;
    slot_marker[ring.write_slot(frame_index) as usize] = Some(0);

    for frame in 1..(buf_size * 4) {
        frame_index += 1;
        let read = ring.read_slot(frame_index);
        if slot_marker[read as usize] == Some(0) {
            return frame;
        }
        slot_marker[ring.write_slot(frame_index) as usize] = Some(frame);
    }
    panic!("flash never reproduced within {} frames", buf_size * 4);
}

#[test]
fn buf_size_is_loop_length_plus_one() {
    assert_eq!(Ring::new(2, 239).buf_size(), 3);
    assert_eq!(Ring::new(30, 239).buf_size(), 31);
    assert_eq!(Ring::new(239, 239).buf_size(), 240);
}

#[test]
fn write_slot_wraps_at_buf_size() {
    let r = Ring::new(2, 239);
    assert_eq!(r.write_slot(0), 0);
    assert_eq!(r.write_slot(1), 1);
    assert_eq!(r.write_slot(2), 2);
    assert_eq!(r.write_slot(3), 0);
    assert_eq!(r.write_slot(4), 1);
}

#[test]
fn read_slot_is_one_past_write_slot() {
    let r = Ring::new(3, 239);
    for frame_index in 0..8u64 {
        let expected = (r.write_slot(frame_index) + 1) % r.buf_size();
        assert_eq!(r.read_slot(frame_index), expected);
    }
}

#[test]
fn read_slot_never_aliases_write_slot() {
    for loop_length in [1u32, 2, 5, 30, 239] {
        let r = Ring::new(loop_length, 239);
        for frame_index in 0..(r.buf_size() as u64 * 3) {
            assert_ne!(
                r.read_slot(frame_index),
                r.write_slot(frame_index),
                "loop_length={loop_length} fi={frame_index}: read aliased write"
            );
        }
    }
}

#[test]
fn read_slot_is_frame_index_minus_loop_length_mod_bufsize() {
    for loop_length in [1u32, 2, 5, 30, 239] {
        let r = Ring::new(loop_length, 239);
        let bs = r.buf_size() as u64;
        for frame_index in 0..(bs * 3) {
            let spec = ((frame_index % bs) + bs - (loop_length as u64 % bs)) % bs;
            assert_eq!(
                r.read_slot(frame_index) as u64,
                spec,
                "loop_length={loop_length} fi={frame_index}"
            );
        }
    }
}

#[test]
fn read_is_order_independent_within_a_frame() {
    let r = Ring::new(5, 239);
    for frame_index in 0..20u64 {
        let tap_before = r.read_slot(frame_index);
        let _this_frames_write = r.write_slot(frame_index);
        let tap_after = r.read_slot(frame_index);
        assert_eq!(
            tap_before, tap_after,
            "fi={frame_index}: two Taps in one frame must read the same slot"
        );
    }
}

#[test]
fn realized_delay_equals_loop_length() {
    for loop_length in [1u32, 2, 3, 7, 30, 100, 239] {
        let realized = simulate_first_reproduction(loop_length, 239);
        assert_eq!(
            realized, loop_length,
            "loop_length={loop_length}: realized delay should equal loop_length"
        );
        assert_eq!(realized, Ring::new(loop_length, 239).realized_delay_frames());
    }
}

#[test]
fn loop_length_is_clamped() {
    assert_eq!(Ring::new(0, 239).loop_length, 1);
    assert_eq!(Ring::new(999, 239).loop_length, 239);
    assert_eq!(Ring::new(50, 239).loop_length, 50);
}

#[test]
fn for_buffer_recovers_loop_length() {
    for loop_length in [1u32, 2, 5, 239] {
        let bs = Ring::new(loop_length, 239).buf_size();
        assert_eq!(Ring::for_buffer(bs).loop_length, loop_length);
    }
}

#[test]
fn zero_max_loop_clamps_to_one() {
    assert_eq!(Ring::new(0, 0).loop_length, 1);
    assert_eq!(Ring::new(7, 0).loop_length, 1);
}

#[test]
fn for_buffer_of_tiny_buffers_is_one() {
    assert_eq!(Ring::for_buffer(0).loop_length, 1);
    assert_eq!(Ring::for_buffer(1).loop_length, 1);
    assert_eq!(Ring::for_buffer(2).loop_length, 1);
    assert_eq!(Ring::for_buffer(120).loop_length, 119);
}

#[test]
fn read_slot_exact_values() {
    let r = Ring::new(4, 119); // buf_size 5
    assert_eq!(r.write_slot(12), 2);
    assert_eq!(r.read_slot(12), 3);
    assert_eq!(r.read_slot(14), 0);
    // the frame written at counter 12 is read back at counter 16
    assert_eq!(r.read_slot(16), r.write_slot(12));
}

#[test]
fn slots_at_large_frame_counters() {
    let r = Ring::new(119, 119);
    let fi = u64::MAX;
    assert_eq!(r.write_slot(fi) as u64, fi % 120);
    assert_eq!(r.read_slot(fi) as u64, (fi % 120 + 1) % 120);
}
