//! Slot choices of the delay line's two heads, from what the registry reports.
//!
//! The Write records into the write slot of the current frame; the Tap reads
//! the oldest layer, one full lap back. Both derive the ring geometry from the
//! reported ring size, so they agree with each other and with the registry.
//! Without a tape (ring size 0 or texture 0) neither touches it: the Write
//! passes its input through and the Tap forces its Wet gain to 0.

use vstd::prelude::*;
use crate::ring::{loop_length_for_buffer, Ring};

verus! {

/// The ring a head derives from a reported ring size.
pub open spec fn ring_for(buf_size: u32) -> Ring {
    Ring { loop_length: loop_length_for_buffer(buf_size as int) as u32 }
}

/// The layer the Tap reads on frame `frame_index`, or `None` when the channel
/// has no tape yet (the Tap then outputs Dry * source only).
pub fn tap_read_slot(buf_size: u32, tex: u32, frame_index: u64) -> (s: Option<u32>)
    ensures
        (buf_size == 0 || tex == 0) ==> s is None,
        (buf_size != 0 && tex != 0) ==> s == Some(
            ring_for(buf_size).spec_read_slot(frame_index as int) as u32,
        ),
        buf_size >= 2 && tex != 0 ==> s == Some(((frame_index + 1) % (buf_size as int)) as u32),
{
    if buf_size == 0 || tex == 0 {
        None
    } else {
        Some(Ring::for_buffer(buf_size).read_slot(frame_index))
    }
}

/// The layer the Write records into on frame `frame_index`, or `None` when
/// the tape could not be allocated (the Write then only passes its input through).
pub fn write_slot_for(buf_size: u32, tex: u32, frame_index: u64) -> (s: Option<u32>)
    ensures
        (buf_size == 0 || tex == 0) ==> s is None,
        (buf_size != 0 && tex != 0) ==> s == Some(
            ring_for(buf_size).spec_write_slot(frame_index as int) as u32,
        ),
        buf_size >= 2 && tex != 0 ==> s == Some(((frame_index as int) % (buf_size as int)) as u32),
{
    if buf_size == 0 || tex == 0 {
        None
    } else {
        Some(Ring::for_buffer(buf_size).write_slot(frame_index))
    }
}

/// Draw order cannot change what a Tap reads: on one frame the Tap's slot
/// depends only on the frame counter and the ring size, never on a Write in
/// between, and it never is the slot that frame's Write fills.
pub proof fn lemma_tap_never_reads_this_frames_write(buf_size: u32, frame_index: int)
    requires
        buf_size >= 2,
    ensures
        ring_for(buf_size).spec_read_slot(frame_index) != ring_for(buf_size).spec_write_slot(
            frame_index,
        ),
        ring_for(buf_size).spec_buf_size() == buf_size,
{
    crate::ring::lemma_read_slot_lags_loop_length(ring_for(buf_size), frame_index);
}

/// End to end: what the Write records on frame counter `f` is what the Tap
/// reads on counter `f + loop_length` (one lap later), where the ring is the one
/// both derive from the reported ring size.
pub proof fn lemma_tap_reads_write_one_lap_later(buf_size: u32, f: int)
    requires
        buf_size >= 2,
    ensures
        ring_for(buf_size).spec_read_slot(f + (buf_size - 1)) == ring_for(buf_size).spec_write_slot(f),
        forall|k: int|
            0 <= k < buf_size - 1 ==> #[trigger] ring_for(buf_size).spec_read_slot(f + k)
                != ring_for(buf_size).spec_write_slot(f),
{
    crate::ring::lemma_realized_delay(ring_for(buf_size), f);
}

} // verus!
