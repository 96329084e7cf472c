use feedback_tape::delay_core::{DelayRegistry, Sizing, TickStep, BUFFER_DEPTH};
use feedback_tape::heads::{tap_read_slot, write_slot_for};

/// One Write tick as the plugin performs it: tick, then allocate on request
/// (here: hand out texture names from a counter).
fn write_tick(reg: &mut DelayRegistry, ch: usize, loop_length: u32, w: u32, h: u32, fid: u64, next_tex: &mut u32) -> TickStep {
    let step = reg.frame_tick(ch, loop_length, w, h, fid);
    if let Sizing::Allocate { .. } = step.sizing {
        *next_tex += 1;
        reg.attach_texture(ch, *next_tex);
    }
    step
}

#[test]
fn fresh_registry_reports_nothing() {
    let reg = DelayRegistry::new();
    for ch in 0..3usize {
        assert_eq!(reg.tex(ch), 0);
        assert_eq!(reg.buf_size(ch), 0);
        assert_eq!(reg.frame_index(ch), 0);
        assert_eq!(reg.refcount(ch), 0);
    }
    assert_eq!(DelayRegistry::buffer_depth(), BUFFER_DEPTH);
    assert_eq!(BUFFER_DEPTH, 120);
}

#[test]
fn write_tick_allocates_and_clamps_loop_length() {
    let mut reg = DelayRegistry::new();
    let step = reg.frame_tick(0, 30, 64, 32, 1);
    assert_eq!(step, TickStep { first_of_frame: 1, sizing: Sizing::Allocate { release_texture: 0 } });
    assert_eq!(reg.tex(0), 0); // pending until attached
    reg.attach_texture(0, 9);
    assert_eq!(reg.tex(0), 9);
    assert_eq!(reg.buf_size(0), 31);
    assert_eq!(reg.frame_index(0), 1);

    // loop length above the tape's capacity clamps to 119 (buf_size 120)
    let step = reg.frame_tick(0, 500, 64, 32, 2);
    assert_eq!(step.sizing, Sizing::Reseed { texture: 9 });
    assert_eq!(reg.buf_size(0), 120);
    // zero clamps up to 1
    let step = reg.frame_tick(0, 0, 64, 32, 3);
    assert_eq!(step.sizing, Sizing::Reseed { texture: 9 });
    assert_eq!(reg.buf_size(0), 2);
    // unchanged length: nothing to do
    let step = reg.frame_tick(0, 0, 64, 32, 4);
    assert_eq!(step.sizing, Sizing::Keep);
}

#[test]
fn resize_replaces_the_tape() {
    let mut reg = DelayRegistry::new();
    let mut tex = 0;
    write_tick(&mut reg, 1, 4, 8, 8, 1, &mut tex);
    assert_eq!(reg.tex(1), 1);
    let step = reg.frame_tick(1, 4, 16, 8, 2);
    assert_eq!(step.sizing, Sizing::Allocate { release_texture: 1 });
    reg.attach_texture(1, 2);
    assert_eq!(reg.tex(1), 2);
    assert_eq!(reg.buf_size(1), 5);
}

#[test]
fn barrier_advances_once_per_frame() {
    let mut reg = DelayRegistry::new();
    let mut tex = 0;
    let s1 = reg.frame_tick(0, 0, 0, 0, 77); // Tap first
    assert_eq!(s1.first_of_frame, 1);
    assert_eq!(s1.sizing, Sizing::Keep);
    assert_eq!(reg.frame_index(0), 1);
    let s2 = write_tick(&mut reg, 0, 4, 8, 8, 77, &mut tex); // then Write, same frame
    assert_eq!(s2.first_of_frame, 0);
    assert_eq!(reg.frame_index(0), 1);
    // the Write still sized the tape although the Tap won the barrier
    assert_eq!(reg.buf_size(0), 5);
    let s3 = reg.frame_tick(0, 0, 0, 0, 77);
    assert_eq!(s3.first_of_frame, 0);
    assert_eq!(reg.frame_index(0), 1);
    let s4 = reg.frame_tick(0, 0, 0, 0, 78);
    assert_eq!(s4.first_of_frame, 1);
    assert_eq!(reg.frame_index(0), 2);
}

#[test]
fn tap_tick_never_sizes_the_tape() {
    let mut reg = DelayRegistry::new();
    let step = reg.frame_tick(1, 50, 0, 0, 5);
    assert_eq!(step.sizing, Sizing::Keep);
    assert_eq!(reg.buf_size(1), 0);
    assert_eq!(reg.tex(1), 0);
    let step = reg.frame_tick(1, 50, 32, 0, 6);
    assert_eq!(step.sizing, Sizing::Keep);
    assert_eq!(reg.buf_size(1), 0);
}

#[test]
fn acquire_release_and_last_release_frees() {
    let mut reg = DelayRegistry::new();
    let mut tex = 0;
    reg.acquire(0);
    reg.acquire(0);
    assert_eq!(reg.refcount(0), 2);
    write_tick(&mut reg, 0, 10, 8, 8, 1, &mut tex);
    write_tick(&mut reg, 0, 10, 8, 8, 2, &mut tex);
    reg.release(0);
    assert_eq!(reg.refcount(0), 1);
    assert_eq!(reg.tex(0), 1);
    assert_eq!(reg.frame_index(0), 2);
    reg.release(0);
    assert_eq!(reg.refcount(0), 0);
    assert_eq!(reg.tex(0), 0);
    assert_eq!(reg.buf_size(0), 0);
    assert_eq!(reg.frame_index(0), 0);
    // a release below zero stays at zero
    reg.release(0);
    assert_eq!(reg.refcount(0), 0);
    // the counter starts afresh, and the barrier is open again for any frame id
    let s = reg.frame_tick(0, 0, 0, 0, 2);
    assert_eq!(s.first_of_frame, 1);
    assert_eq!(reg.frame_index(0), 1);
}

#[test]
fn out_of_range_channel_is_a_no_op() {
    let mut reg = DelayRegistry::new();
    reg.acquire(2);
    reg.release(7);
    let s = reg.frame_tick(2, 10, 8, 8, 1);
    assert_eq!(s, TickStep { first_of_frame: 0, sizing: Sizing::Keep });
    reg.attach_texture(2, 5);
    assert_eq!(reg.tex(2), 0);
    assert_eq!(reg.buf_size(2), 0);
    assert_eq!(reg.frame_index(2), 0);
    assert_eq!(reg.refcount(0), 0);
    assert_eq!(reg.frame_index(0), 0);
}

/// The pipeline in slots: a flash recorded on frame 0 is first seen by a Tap
/// exactly `loop_length` frames later, with the Tap drawn before the Write.
fn realized_delay_through_registry(loop_length: u32) -> u32 {
    let mut reg = DelayRegistry::new();
    let mut tex = 0;
    let mut tape: Vec<Option<u32>> = vec![None; BUFFER_DEPTH as usize];
    let fid0 = 1000u64;
    write_tick(&mut reg, 0, loop_length, 4, 4, fid0, &mut tex);
    let ws = write_slot_for(reg.buf_size(0), reg.tex(0), reg.frame_index(0)).unwrap();
    tape[ws as usize] = Some(0);
    for f in 1..(loop_length + 6) {
        let fid = fid0 + f as u64;
        reg.frame_tick(0, 0, 0, 0, fid);
        let rs = tap_read_slot(reg.buf_size(0), reg.tex(0), reg.frame_index(0)).unwrap();
        if tape[rs as usize] == Some(0) {
            return f;
        }
        write_tick(&mut reg, 0, loop_length, 4, 4, fid, &mut tex);
        let ws = write_slot_for(reg.buf_size(0), reg.tex(0), reg.frame_index(0)).unwrap();
        tape[ws as usize] = Some(f);
    }
    panic!("flash never reproduced");
}

#[test]
fn realized_delay_through_the_registry_is_loop_length() {
    for loop_length in [1u32, 2, 3, 5, 12, 119] {
        assert_eq!(realized_delay_through_registry(loop_length), loop_length);
    }
}

#[test]
fn heads_without_a_tape_do_nothing() {
    assert_eq!(tap_read_slot(0, 5, 10), None);
    assert_eq!(tap_read_slot(5, 0, 10), None);
    assert_eq!(write_slot_for(0, 5, 10), None);
    assert_eq!(write_slot_for(5, 0, 10), None);
    // buf_size 5: write 10 % 5 = 0, read one past it
    assert_eq!(write_slot_for(5, 3, 10), Some(0));
    assert_eq!(tap_read_slot(5, 3, 10), Some(1));
}

#[test]
fn acquire_then_release_restores_a_held_channel() {
    let mut reg = DelayRegistry::new();
    let mut tex = 0;
    reg.acquire(1);
    write_tick(&mut reg, 1, 6, 8, 8, 1, &mut tex);
    let before = (reg.refcount(1), reg.tex(1), reg.buf_size(1), reg.frame_index(1));
    reg.acquire(1);
    reg.release(1);
    assert_eq!((reg.refcount(1), reg.tex(1), reg.buf_size(1), reg.frame_index(1)), before);
}

#[test]
fn tap_write_tap_in_one_frame_read_the_same_slot() {
    let mut reg = DelayRegistry::new();
    let mut tex = 0;
    write_tick(&mut reg, 0, 5, 8, 8, 1, &mut tex);
    for fid in 2..12u64 {
        reg.frame_tick(0, 0, 0, 0, fid);
        let first = tap_read_slot(reg.buf_size(0), reg.tex(0), reg.frame_index(0));
        write_tick(&mut reg, 0, 5, 8, 8, fid, &mut tex);
        reg.frame_tick(0, 0, 0, 0, fid);
        let second = tap_read_slot(reg.buf_size(0), reg.tex(0), reg.frame_index(0));
        assert_eq!(first, second, "fid={fid}");
        let written = write_slot_for(reg.buf_size(0), reg.tex(0), reg.frame_index(0));
        assert_ne!(first, written);
    }
}
