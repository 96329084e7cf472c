use feedback_tape::read_head::{anchor_age, confined_slot, sample_age_taps, sample_confined_taps, Taps};

#[test]
fn anchor_age_is_top_of_the_window() {
    assert_eq!(anchor_age(30), 29);
    assert_eq!(anchor_age(1), 0);
    assert_eq!(anchor_age(0), 0);
}

#[test]
fn anchor_taps_read_oldest_then_newest() {
    let s = sample_age_taps(100, anchor_age(8) as u64, 8, 61);
    assert_eq!(s.layer0, (100 - 7) % 61);
    assert_eq!(s.layer1, 100 % 61);
}

#[test]
fn anchor_read_never_aliases_next_write() {
    let (depth, len, r) = (61u32, 60u32, 1000u64);
    let read = sample_age_taps(r, anchor_age(len) as u64, len, depth).layer0;
    let write = ((r + 1) % depth as u64) as u32;
    assert_ne!(read, write);
}

#[test]
fn whole_age_taps_are_four_consecutive_ages() {
    // whole age 2 (age 2.25) in an 8-frame window: ages 1, 2, 3, 4
    let s = sample_age_taps(100, 2, 8, 240);
    assert_eq!(s, Taps { prev: 99, layer0: 98, layer1: 97, next: 96 });
}

#[test]
fn whole_age_outer_taps_wrap_at_the_seam() {
    let s = sample_age_taps(100, 7, 8, 240);
    assert_eq!(s, Taps { prev: 94, layer0: 93, layer1: 100, next: 99 });
}

#[test]
fn confined_taps_wrap_within_window() {
    let s = sample_confined_taps(7, 8, 240);
    assert_eq!(s, Taps { prev: 6, layer0: 7, layer1: 0, next: 1 });
    let s = sample_confined_taps(0, 8, 240);
    assert_eq!(s, Taps { prev: 7, layer0: 0, layer1: 1, next: 2 });
}

#[test]
fn degenerate_window_collapses_taps() {
    let s = sample_confined_taps(0, 1, 240);
    assert_eq!((s.prev, s.layer0, s.layer1, s.next), (0, 0, 0, 0));
    let s = sample_confined_taps(5, 0, 240);
    assert_eq!((s.prev, s.layer0, s.layer1, s.next), (0, 0, 0, 0));
}

#[test]
fn confined_taps_map_to_low_layers() {
    let s = sample_confined_taps(2, 8, 240);
    assert_eq!(s.layer0, 2);
    assert_eq!(s.layer1, 3);
}

#[test]
fn confined_window_larger_than_ring_folds_into_it() {
    let s = sample_confined_taps(9, 12, 8);
    assert_eq!(s, Taps { prev: 0, layer0: 1, layer1: 2, next: 3 });
}

#[test]
fn confined_slot_wraps() {
    assert_eq!(confined_slot(7, 8), 7);
    assert_eq!(confined_slot(0, 8), 0);
    assert_eq!(confined_slot(8, 8), 0);
    assert_eq!(confined_slot(5, 0), 0);
}

#[test]
fn age_zero_taps_newest_frame() {
    let s = sample_age_taps(100, 0, 8, 240);
    assert_eq!(s.layer0, 100);
    assert_eq!(s.prev, 93); // (0 - 1) mod 8 = 7: the oldest frame
}

#[test]
fn layers_wrap_modulo_depth() {
    let s = sample_age_taps(3, 5, 8, 240);
    assert_eq!(s.layer0, 238);
}

#[test]
fn shifted_age_reads_newer_layer() {
    // age 3 shifted one frame newer reads whole age 2
    let s = sample_age_taps(100, 3 - 1, 8, 240);
    assert_eq!(s.layer0, 98);
}

#[test]
fn zero_depth_is_taken_as_one() {
    let s = sample_age_taps(100, 3, 8, 0);
    assert_eq!(s, Taps { prev: 0, layer0: 0, layer1: 0, next: 0 });
}
