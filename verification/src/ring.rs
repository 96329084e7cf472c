//! Ring-buffer slot arithmetic for one channel's tape (absolute addressing).
//!
//! Slots are addressed off a per-channel monotonic `frame_index` that advances
//! once per host frame. Both the write slot and the read slot are functions of
//! that one value, so a Tap reads the same content wherever it sits in the
//! stack. `buf_size = loop_length + 1`: the extra layer is the guard slot that
//! keeps the read slot from ever aliasing the write slot.

use vstd::prelude::*;
use vstd::arithmetic::div_mod::*;

verus! {

/// `lo` if `v < lo`, `hi` if `v > hi`, else `v`.
pub open spec fn clamp_int(v: int, lo: int, hi: int) -> int {
    if v < lo {
        lo
    } else if v > hi {
        hi
    } else {
        v
    }
}

/// The loop length `Ring::new(loop_length, max_loop)` settles on:
/// `loop_length` clamped to `1..=max(max_loop, 1)`.
pub open spec fn clamped_loop_length(loop_length: int, max_loop: int) -> int {
    clamp_int(loop_length, 1, if max_loop < 1 { 1 } else { max_loop })
}

/// The loop length recovered from a buffer of `buf_size` layers:
/// `max(buf_size - 1, 1)`.
pub open spec fn loop_length_for_buffer(buf_size: int) -> int {
    if buf_size <= 1 {
        1
    } else {
        buf_size - 1
    }
}

/// The ring geometry for one channel: just the loop length.
#[derive(Clone, Copy, Debug, PartialEq, Eq)]
pub struct Ring {
    /// Delay length in frames. Equals the realized delay exactly.
    pub loop_length: u32,
}

impl Ring {
    /// Number of live layers: `loop_length + 1`.
    pub open spec fn spec_buf_size(self) -> int {
        self.loop_length + 1
    }

    /// Slot written on the frame whose counter is `frame_index`.
    pub open spec fn spec_write_slot(self, frame_index: int) -> int {
        frame_index % self.spec_buf_size()
    }

    /// Slot read on the frame whose counter is `frame_index`: the slot the
    /// write advances into next.
    pub open spec fn spec_read_slot(self, frame_index: int) -> int {
        (self.spec_write_slot(frame_index) + 1) % self.spec_buf_size()
    }

    /// `buf_size` fits in a `u32`.
    pub open spec fn fits(self) -> bool {
        self.loop_length < u32::MAX
    }

    /// New ring with `loop_length` clamped to `1..=max(max_loop, 1)`.
    pub fn new(loop_length: u32, max_loop: u32) -> (r: Self)
        ensures
            r.loop_length == clamped_loop_length(loop_length as int, max_loop as int),
            1 <= r.loop_length,
            max_loop >= 1 ==> r.loop_length <= max_loop,
            1 <= loop_length && (loop_length <= max_loop || max_loop == 0 && loop_length == 1) ==> r.loop_length == loop_length,
            loop_length == 0 ==> r.loop_length == 1,
            max_loop >= 1 && loop_length > max_loop ==> r.loop_length == max_loop,
            max_loop == 0 ==> r.loop_length == 1,
    {
        let hi: u32 = if max_loop < 1 { 1 } else { max_loop };
        let l: u32 = if loop_length < 1 {
            1
        } else if loop_length > hi {
            hi
        } else {
            loop_length
        };
        Ring { loop_length: l }
    }

    /// Ring geometry recovered from a channel's `buf_size`:
    /// `loop_length = max(buf_size - 1, 1)`.
    pub fn for_buffer(buf_size: u32) -> (r: Self)
        ensures
            r.loop_length == loop_length_for_buffer(buf_size as int),
            r.fits(),
            buf_size >= 2 ==> r.loop_length == buf_size - 1,
            buf_size <= 1 ==> r.loop_length == 1,
    {
        let l: u32 = if buf_size <= 1 { 1 } else { buf_size - 1 };
        Ring { loop_length: l }
    }

    /// Number of live layers the ring cycles through (`loop_length + 1`).
    pub fn buf_size(&self) -> (n: u32)
        requires
            self.fits(),
        ensures
            n == self.spec_buf_size(),
            n == self.loop_length + 1,
    {
        self.loop_length + 1
    }

    /// The slot the Write records into: `frame_index mod buf_size`.
    pub fn write_slot(&self, frame_index: u64) -> (s: u32)
        requires
            self.fits(),
        ensures
            s == self.spec_write_slot(frame_index as int),
            s < self.spec_buf_size(),
            s == (frame_index as int) % (self.loop_length as int + 1),
    {
        let bs: u64 = self.buf_size() as u64;
        (frame_index % bs) as u32
    }

    /// The slot a Tap reads: the oldest live layer, one full lap back,
    /// `(write_slot + 1) mod buf_size`, which equals
    /// `(frame_index - loop_length) mod buf_size` and never equals the write
    /// slot when `loop_length >= 1`.
    pub fn read_slot(&self, frame_index: u64) -> (s: u32)
        requires
            self.fits(),
        ensures
            s == self.spec_read_slot(frame_index as int),
            s == (frame_index - self.loop_length) % self.spec_buf_size(),
            s < self.spec_buf_size(),
            self.loop_length >= 1 ==> s != self.spec_write_slot(frame_index as int),
            s == (frame_index + 1) % (self.loop_length as int + 1),
    {
        proof {
            lemma_read_slot_lags_loop_length(*self, frame_index as int);
        }
        (self.write_slot(frame_index) + 1) % self.buf_size()
    }

    /// Realized delay in frames between recording a frame and a Tap first
    /// reproducing it: exactly `loop_length`.
    pub fn realized_delay_frames(&self) -> (d: u32)
        ensures
            d == self.loop_length,
    {
        self.loop_length
    }
}

/// The read slot on frame `frame_index` is the frame `loop_length` back:
/// `read_slot(f) == (f - loop_length) mod buf_size`, and it never equals the
/// write slot of the same frame when `loop_length >= 1`.
pub proof fn lemma_read_slot_lags_loop_length(ring: Ring, frame_index: int)
    ensures
        ring.spec_read_slot(frame_index) == (frame_index - ring.loop_length) % ring.spec_buf_size(),
        ring.spec_read_slot(frame_index) == (frame_index + 1) % ring.spec_buf_size(),
        0 <= ring.spec_read_slot(frame_index) < ring.spec_buf_size(),
        ring.loop_length >= 1 ==> ring.spec_read_slot(frame_index) != ring.spec_write_slot(
            frame_index,
        ),
{
    let bs: int = ring.spec_buf_size();
    let l: int = ring.loop_length as int;
    lemma_add_mod_noop_right(1, frame_index, bs);
    assert((frame_index % bs + 1) % bs == (frame_index + 1) % bs);
    lemma_mod_sub_multiples_vanish(frame_index + 1, bs);
    assert(frame_index - l == -bs + (frame_index + 1));
    assert((frame_index - l) % bs == (frame_index + 1) % bs);
    lemma_mod_bound(frame_index, bs);
    lemma_mod_bound(frame_index + 1, bs);
    if l >= 1 {
        let w: int = frame_index % bs;
        if w + 1 < bs {
            lemma_small_mod((w + 1) as nat, bs as nat);
        } else {
            lemma_mod_self_0(bs);
        }
    }
}

/// Two frame counters land on the same slot of a `modulus`-layer ring exactly
/// when they differ by a multiple of `modulus`; within less than one lap
/// apart, only when they are equal.
proof fn lemma_same_slot_within_lap(a: int, b: int, modulus: int)
    requires
        modulus > 0,
        0 < b - a < modulus,
    ensures
        a % modulus != b % modulus,
{
    lemma_mod_equivalence(b, a, modulus);
    lemma_small_mod((b - a) as nat, modulus as nat);
}

/// Realized delay: the frame recorded on counter `f` is first read back on
/// counter `f + loop_length`. Earlier Tap reads (counters `f .. f + loop_length - 1`)
/// land elsewhere, and no Write in between overwrites that slot.
pub proof fn lemma_realized_delay(ring: Ring, f: int)
    requires
        ring.loop_length >= 1,
    ensures
        ring.spec_read_slot(f + ring.loop_length) == ring.spec_write_slot(f),
        forall|k: int|
            0 <= k < ring.loop_length ==> #[trigger] ring.spec_read_slot(f + k)
                != ring.spec_write_slot(f),
        forall|j: int|
            0 < j <= ring.loop_length ==> #[trigger] ring.spec_write_slot(f + j)
                != ring.spec_write_slot(f),
{
    let bs: int = ring.spec_buf_size();
    let l: int = ring.loop_length as int;
    lemma_read_slot_lags_loop_length(ring, f + l);
    assert(f + l - l == f);
    assert forall|k: int| 0 <= k < l implies #[trigger] ring.spec_read_slot(f + k)
        != ring.spec_write_slot(f) by {
        lemma_read_slot_lags_loop_length(ring, f + k);
        lemma_same_slot_within_lap(f + k - l, f, bs);
    }
    assert forall|j: int| 0 < j <= l implies #[trigger] ring.spec_write_slot(f + j)
        != ring.spec_write_slot(f) by {
        lemma_same_slot_within_lap(f, f + j, bs);
    }
}

/// Rebuilding the geometry from the buffer size a ring reports recovers its
/// loop length: `for_buffer(new(l, m).buf_size()).loop_length == new(l, m).loop_length`.
pub proof fn lemma_for_buffer_recovers_loop_length(loop_length: u32, max_loop: u32)
    requires
        clamped_loop_length(loop_length as int, max_loop as int) < u32::MAX,
    ensures
        loop_length_for_buffer(clamped_loop_length(loop_length as int, max_loop as int) + 1)
            == clamped_loop_length(loop_length as int, max_loop as int),
{
}

} // verus!
