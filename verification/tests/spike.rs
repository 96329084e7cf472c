use feedback_tape::spike::SpikeRegistry;

/// Two plugins share one registry: what plugin A writes, plugin B reads.
#[test]
fn shared_registry_host_scenario() {
    let mut reg = SpikeRegistry::new();
    let ch = 0usize;

    reg.acquire(ch); // plugin A opens
    reg.acquire(ch); // plugin B opens
    assert_eq!(reg.refcount(ch), 2, "both plugins acquire same channel -> refcount 2");
    let (ta, tb) = (reg.tex_handle(ch), reg.tex_handle(ch));
    assert!(ta != 0 && ta == tb, "both see the SAME buffer handle");

    let magic: u64 = 0xDEAD_BEEF_CAFE_F00D;
    // plugin A writes: begin frame then store the value
    let first1 = reg.begin_frame(ch, 1);
    reg.write_value(ch, magic);
    assert_eq!(first1, 1, "A is first writer of frame 1");
    assert_eq!(reg.last_value(ch), magic, "B reads the value A wrote");

    let first_b = reg.begin_frame(ch, 1);
    assert_eq!(first_b, 0, "B is a subsequent writer in the same frame");
    let wp = reg.write_pos(ch);

    let first2 = reg.begin_frame(ch, 2);
    reg.write_value(ch, 0x1234);
    assert_eq!(first2, 1, "A is first writer of a new frame 2");
    assert_eq!(reg.write_pos(ch), wp + 1, "write_pos advanced exactly once per new frame");

    assert_eq!(reg.release(ch), 1, "release drops refcount to 1");
    assert_eq!(reg.release(ch), 0, "final release frees the channel");
    assert_eq!(reg.tex_handle(ch), 0, "freed channel reports no buffer handle");
}

#[test]
fn handles_are_per_channel() {
    let mut reg = SpikeRegistry::new();
    reg.acquire(0);
    reg.acquire(1);
    assert_eq!(reg.tex_handle(0), 0x1000);
    assert_eq!(reg.tex_handle(1), 0x1001);
}

#[test]
fn release_frees_everything() {
    let mut reg = SpikeRegistry::new();
    reg.acquire(1);
    reg.begin_frame(1, 9);
    reg.write_value(1, 77);
    assert_eq!(reg.release(1), 0);
    assert_eq!(reg.last_value(1), 0);
    assert_eq!(reg.write_pos(1), 0);
    assert_eq!(reg.tex_handle(1), 0);
    // the barrier reopens: frame 9 counts as new again
    assert_eq!(reg.begin_frame(1, 9), 1);
    // releasing an unused channel stays at zero
    assert_eq!(reg.release(0), 0);
}

#[test]
fn out_of_range_channel_reads_zero() {
    let mut reg = SpikeRegistry::new();
    reg.acquire(2);
    assert_eq!(reg.begin_frame(2, 1), 0);
    reg.write_value(2, 5);
    assert_eq!(reg.last_value(2), 0);
    assert_eq!(reg.tex_handle(2), 0);
    assert_eq!(reg.write_pos(2), 0);
    assert_eq!(reg.refcount(2), 0);
    assert_eq!(reg.release(2), 0);
}
