//! The single-plugin delay line: mode selection and its channel registry.
//!
//! Each channel's tape is allocated lazily by the first Write frame. A frame
//! counts as new when more than `FRAME_THRESHOLD_NANOS` passed since the
//! channel last advanced (layers render sub-millisecond apart within a host
//! frame, frames are 8-16 ms apart); a new frame advances `write_pos` by one,
//! wrapping at `BUFFER_DEPTH`. The clock reading is supplied by the caller.

use vstd::prelude::*;

verus! {

/// Ring depth of the single-plugin delay line.
pub const LINE_BUFFER_DEPTH: u32 = 240;

/// Number of channels.
pub const LINE_CHANNELS: usize = 2;

/// Gap after which a Write call counts as a new frame: 2 ms, in nanoseconds.
pub const FRAME_THRESHOLD_NANOS: u64 = 2_000_000;

/// Whether the instance reads the tape or writes it.
#[derive(Clone, Copy, PartialEq, Eq, Debug)]
pub enum Mode {
    Read,
    Write,
}

/// How the delay length is specified.
#[derive(Clone, Copy, PartialEq, Eq, Debug)]
pub enum SyncMode {
    Subdivision,
    Ms,
    Frames,
}

impl SyncMode {
    /// The same choice in the timing module's terms.
    pub fn timing_mode(self) -> (m: crate::timing::SyncMode)
        ensures
            self is Subdivision ==> m is Subdivision,
            self is Ms ==> m is Ms,
            self is Frames ==> m is Frames,
    {
        match self {
            SyncMode::Subdivision => crate::timing::SyncMode::Subdivision,
            SyncMode::Ms => crate::timing::SyncMode::Ms,
            SyncMode::Frames => crate::timing::SyncMode::Frames,
        }
    }
}

/// One channel's tape.
#[derive(Clone, Copy, Debug, PartialEq, Eq)]
pub struct ChannelBuffer {
    pub texture_array: u32,
    pub fbo: u32,
    pub write_pos: u32,
    pub width: u32,
    pub height: u32,
    pub refcount: u32,
    /// Clock reading (nanoseconds) of the last advance; `None` for a fresh tape.
    pub last_advance: Option<u64>,
}

/// Result of [`DelayLineRegistry::begin_frame_write`].
#[derive(Clone, Copy, Debug, PartialEq, Eq)]
pub struct FrameWrite {
    /// The layer to record into this frame.
    pub write_pos: u32,
    /// Whether this call started a new frame (advanced `write_pos`).
    pub is_first: bool,
    /// Whether a fresh tape must be allocated and reported with `attach_gl`.
    pub allocate: bool,
    /// The tape this call replaced, whose GL objects the caller must delete.
    pub replaced: Option<ChannelBuffer>,
}

/// Whether a Write at clock `now` starts a new frame.
pub open spec fn starts_frame(last_advance: Option<u64>, now: u64) -> bool {
    match last_advance {
        None => true,
        Some(t) => now > t && now - t > FRAME_THRESHOLD_NANOS,
    }
}

/// The tape a Write at `now` leaves behind, from the channel's previous state.
pub open spec fn written(slot: Option<ChannelBuffer>, width: u32, height: u32, now: u64) -> ChannelBuffer {
    let b = match slot {
        Some(b) if b.width == width && b.height == height => b,
        _ => ChannelBuffer {
            texture_array: 0,
            fbo: 0,
            write_pos: 0,
            width,
            height,
            refcount: 0,
            last_advance: None,
        },
    };
    if starts_frame(b.last_advance, now) {
        ChannelBuffer {
            write_pos: ((b.write_pos + 1) % LINE_BUFFER_DEPTH as int) as u32,
            last_advance: Some(now),
            ..b
        }
    } else {
        b
    }
}

/// Whether a Write of `width` x `height` needs a fresh tape.
pub open spec fn needs_fresh(slot: Option<ChannelBuffer>, width: u32, height: u32) -> bool {
    match slot {
        Some(b) => b.width != width || b.height != height,
        None => true,
    }
}

/// The registry of all channels.
pub struct DelayLineRegistry {
    slots: Vec<Option<ChannelBuffer>>,
}

impl View for DelayLineRegistry {
    type V = Seq<Option<ChannelBuffer>>;

    closed spec fn view(&self) -> Seq<Option<ChannelBuffer>> {
        self.slots@
    }
}

impl DelayLineRegistry {
    /// `LINE_CHANNELS` channels, every `write_pos` below the depth.
    pub open spec fn wf(&self) -> bool {
        &&& self@.len() == LINE_CHANNELS
        &&& forall|i: int|
            0 <= i < LINE_CHANNELS && (#[trigger] self@[i]) is Some ==> self@[i].unwrap().write_pos
                < LINE_BUFFER_DEPTH
    }

    /// A registry with no tapes.
    pub fn new() -> (r: Self)
        ensures
            r.wf(),
            r@ == seq![None::<ChannelBuffer>, None::<ChannelBuffer>],
    {
        let mut slots: Vec<Option<ChannelBuffer>> = Vec::new();
        slots.push(None);
        slots.push(None);
        DelayLineRegistry { slots }
    }

    /// Ring depth.
    pub fn buffer_depth() -> (d: u32)
        ensures
            d == LINE_BUFFER_DEPTH,
    {
        LINE_BUFFER_DEPTH
    }

    /// `(texture_array, write_pos, width, height)` of the channel's tape, or
    /// `None` before the first Write.
    pub fn read_channel(&self, channel: usize) -> (r: Option<(u32, u32, u32, u32)>)
        requires
            self.wf(),
            channel < LINE_CHANNELS,
        ensures
            r == (match self@[channel as int] {
                Some(b) => Some((b.texture_array, b.write_pos, b.width, b.height)),
                None => None,
            }),
    {
        match &self.slots[channel] {
            Some(b) => Some((b.texture_array, b.write_pos, b.width, b.height)),
            None => None,
        }
    }

    /// The channel's whole tape record, or `None` before the first Write.
    pub fn buffer(&self, channel: usize) -> (b: Option<ChannelBuffer>)
        requires
            self.wf(),
            channel < LINE_CHANNELS,
        ensures
            b == self@[channel as int],
    {
        self.slots[channel]
    }

    /// Begin a Write frame on `channel` at clock `now` (nanoseconds). A missing
    /// tape or one of another size is replaced by a fresh one (refcount 0,
    /// `write_pos` 0); then, if more than 2 ms passed since the last advance
    /// (always for a fresh tape), `write_pos` advances by one mod the depth.
    pub fn begin_frame_write(&mut self, channel: usize, width: u32, height: u32, now: u64) -> (fw:
        FrameWrite)
        requires
            old(self).wf(),
            channel < LINE_CHANNELS,
        ensures
            final(self).wf(),
            final(self)@ == old(self)@.update(
                channel as int,
                Some(written(old(self)@[channel as int], width, height, now)),
            ),
            fw.write_pos == written(old(self)@[channel as int], width, height, now).write_pos,
            fw.allocate == needs_fresh(old(self)@[channel as int], width, height),
            fw.replaced == (if needs_fresh(old(self)@[channel as int], width, height) {
                old(self)@[channel as int]
            } else {
                None
            }),
            fw.is_first == starts_frame(
                (if needs_fresh(old(self)@[channel as int], width, height) {
                    None
                } else {
                    old(self)@[channel as int].unwrap().last_advance
                }),
                now,
            ),
            // The tape left behind has exactly the requested size.
            final(self)@[channel as int] is Some,
            final(self)@[channel as int].unwrap().width == width,
            final(self)@[channel as int].unwrap().height == height,
            final(self)@[channel as int].unwrap().write_pos == fw.write_pos,
            // A tape differing in either dimension (or none) is replaced and handed back.
            (old(self)@[channel as int] is None || old(self)@[channel as int].unwrap().width
                != width || old(self)@[channel as int].unwrap().height != height) ==> fw.allocate
                && fw.replaced == old(self)@[channel as int] && fw.is_first && fw.write_pos == 1
                && final(self)@[channel as int].unwrap().refcount == 0,
            // A tape of the same size is kept; it advances by one (mod the depth)
            // exactly when more than the threshold passed since its last advance.
            (old(self)@[channel as int] is Some && old(self)@[channel as int].unwrap().width
                == width && old(self)@[channel as int].unwrap().height == height) ==> {
                let b = old(self)@[channel as int].unwrap();
                let n = final(self)@[channel as int].unwrap();
                &&& !fw.allocate
                &&& fw.replaced is None
                &&& n.texture_array == b.texture_array
                &&& n.fbo == b.fbo
                &&& n.refcount == b.refcount
                &&& fw.is_first == (b.last_advance is None || (now > b.last_advance.unwrap() && now
                    - b.last_advance.unwrap() > FRAME_THRESHOLD_NANOS))
                &&& fw.is_first ==> fw.write_pos == (b.write_pos + 1) % (LINE_BUFFER_DEPTH as int)
                &&& !fw.is_first ==> fw.write_pos == b.write_pos
            },
    {
        let ghost s0 = self@[channel as int];
        let current = self.slots[channel];
        let fresh = match &current {
            Some(b) => b.width != width || b.height != height,
            None => true,
        };
        let mut b = if fresh {
            ChannelBuffer {
                texture_array: 0,
                fbo: 0,
                write_pos: 0,
                width,
                height,
                refcount: 0,
                last_advance: None,
            }
        } else {
            current.unwrap()
        };
        let is_first = match b.last_advance {
            None => true,
            Some(t) => now > t && now - t > FRAME_THRESHOLD_NANOS,
        };
        if is_first {
            b.write_pos = (b.write_pos + 1) % LINE_BUFFER_DEPTH;
            b.last_advance = Some(now);
        }
        assert(b == written(s0, width, height, now));
        self.slots.set(channel, Some(b));
        assert(self@ =~= old(self)@.update(channel as int, Some(b)));
        FrameWrite {
            write_pos: b.write_pos,
            is_first,
            allocate: fresh,
            replaced: if fresh {
                current
            } else {
                None
            },
        }
    }

    /// Record the GL objects allocated for `channel`'s fresh tape. A no-op
    /// when the channel has no tape.
    pub fn attach_gl(&mut self, channel: usize, texture_array: u32, fbo: u32)
        requires
            old(self).wf(),
            channel < LINE_CHANNELS,
        ensures
            final(self).wf(),
            final(self)@ == (match old(self)@[channel as int] {
                Some(b) => old(self)@.update(
                    channel as int,
                    Some(ChannelBuffer { texture_array, fbo, ..b }),
                ),
                None => old(self)@,
            }),
    {
        match self.slots[channel] {
            Some(b) => {
                let nb = ChannelBuffer { texture_array, fbo, ..b };
                self.slots.set(channel, Some(nb));
                assert(self@ =~= old(self)@.update(channel as int, Some(nb)));
            },
            None => {},
        }
    }

    /// Count one more user of an allocated tape (no-op before the first Write).
    pub fn acquire(&mut self, channel: usize)
        requires
            old(self).wf(),
            channel < LINE_CHANNELS,
            old(self)@[channel as int] is Some ==> old(self)@[channel as int].unwrap().refcount
                < u32::MAX,
        ensures
            final(self).wf(),
            final(self)@ == (match old(self)@[channel as int] {
                Some(b) => old(self)@.update(
                    channel as int,
                    Some(ChannelBuffer { refcount: (b.refcount + 1) as u32, ..b }),
                ),
                None => old(self)@,
            }),
    {
        match self.slots[channel] {
            Some(b) => {
                let nb = ChannelBuffer { refcount: b.refcount + 1, ..b };
                self.slots.set(channel, Some(nb));
                assert(self@ =~= old(self)@.update(channel as int, Some(nb)));
            },
            None => {},
        }
    }

    /// Drop one user; when none is left the tape is removed and returned so
    /// the caller can delete its GL objects.
    pub fn release(&mut self, channel: usize) -> (freed: Option<ChannelBuffer>)
        requires
            old(self).wf(),
            channel < LINE_CHANNELS,
        ensures
            final(self).wf(),
            match old(self)@[channel as int] {
                Some(b) => if b.refcount <= 1 {
                    &&& final(self)@ == old(self)@.update(channel as int, None)
                    &&& freed == Some(ChannelBuffer { refcount: 0, ..b })
                } else {
                    &&& final(self)@ == old(self)@.update(
                        channel as int,
                        Some(ChannelBuffer { refcount: (b.refcount - 1) as u32, ..b }),
                    )
                    &&& freed is None
                },
                None => final(self)@ == old(self)@ && freed is None,
            },
    {
        match self.slots[channel] {
            Some(b) => {
                let rc: u32 = b.refcount.saturating_sub(1);
                if rc == 0 {
                    self.slots.set(channel, None);
                    assert(self@ =~= old(self)@.update(channel as int, None));
                    Some(ChannelBuffer { refcount: 0, ..b })
                } else {
                    let nb = ChannelBuffer { refcount: rc, ..b };
                    self.slots.set(channel, Some(nb));
                    assert(self@ =~= old(self)@.update(channel as int, Some(nb)));
                    None
                }
            },
            None => None,
        }
    }
}

/// Within one frame the write position advances once: after a Write at `now`
/// that advanced, a Write at most 2 ms later reuses the same layer and
/// changes nothing.
pub proof fn lemma_one_advance_within_threshold(
    slot: Option<ChannelBuffer>,
    width: u32,
    height: u32,
    now: u64,
    later: u64,
)
    requires
        written(slot, width, height, now).last_advance == Some(now),
        now <= later,
        later - now <= FRAME_THRESHOLD_NANOS,
    ensures
        written(Some(written(slot, width, height, now)), width, height, later) == written(
            slot,
            width,
            height,
            now,
        ),
{
}

/// A Write more than 2 ms after the last advance moves to the next layer,
/// wrapping at the depth.
pub proof fn lemma_advance_after_threshold(b: ChannelBuffer, now: u64)
    requires
        b.last_advance is Some,
        now > b.last_advance.unwrap(),
        now - b.last_advance.unwrap() > FRAME_THRESHOLD_NANOS,
    ensures
        written(Some(b), b.width, b.height, now).write_pos == (b.write_pos + 1)
            % LINE_BUFFER_DEPTH as int,
{
}

/// A Write leaves a tape of exactly its size, so the next Write of that size
/// keeps it, while one that changes either dimension gets a fresh tape.
pub proof fn lemma_write_size_is_latched(
    slot: Option<ChannelBuffer>,
    width: u32,
    height: u32,
    now: u64,
    w2: u32,
    h2: u32,
)
    ensures
        written(slot, width, height, now).width == width,
        written(slot, width, height, now).height == height,
        !needs_fresh(Some(written(slot, width, height, now)), width, height),
        (w2 != width || h2 != height) ==> needs_fresh(
            Some(written(slot, width, height, now)),
            w2,
            h2,
        ),
{
}

} // verus!
