//! The shared ring-buffer registry and frame barrier of the delay line.
//!
//! One registry is shared by every Delay Write and Delay Tap instance. Each of
//! the `NUM_CHANNELS` channels holds a refcount, an optional tape buffer and a
//! monotonic `frame_index` that the frame barrier advances exactly once per
//! host frame, however many instances tick it. The write and read slots are
//! computed from that counter (see [`crate::ring::Ring`]), so they do not depend
//! on draw order.
//!
//! The registry decides; the caller does the GPU work. [`DelayRegistry::frame_tick`]
//! says whether a tape must be (re)allocated or reseeded to black, and the
//! caller reports the allocated texture name back with
//! [`DelayRegistry::attach_texture`].

use vstd::prelude::*;
use crate::ring::{clamped_loop_length, Ring};

verus! {

/// Ring-buffer depth (layers of the tape). Caps the maximum loop.
pub const BUFFER_DEPTH: u32 = 120;

/// Number of shared channels.
pub const NUM_CHANNELS: usize = 2;

/// Longest loop the tape holds: one layer is the guard slot.
pub const MAX_LOOP: u32 = 119;

/// One channel's allocated tape.
#[derive(Clone, Copy, Debug, PartialEq, Eq)]
pub struct TapeBuffer {
    /// Texture-array name; 0 when the allocation failed or is still pending.
    pub texture: u32,
    /// Loop length in frames, clamped to `1..=MAX_LOOP`.
    pub loop_length: u32,
    pub width: u32,
    pub height: u32,
}

/// One channel's registry slot.
#[derive(Clone, Copy, Debug, PartialEq, Eq)]
pub struct Channel {
    pub buffer: Option<TapeBuffer>,
    pub refcount: u32,
    /// Monotonic frame counter, advanced once per host frame (wraps at `u64`).
    pub frame_index: u64,
    /// Host frame id of the frame last ticked (the barrier's de-dup key).
    pub frame_id: u64,
    pub frame_active: bool,
}

/// What the caller must do on the GPU after a tick.
#[derive(Clone, Copy, Debug, PartialEq, Eq)]
pub enum Sizing {
    /// Nothing to do.
    Keep,
    /// Delete `release_texture` (when non-zero), allocate a fresh cleared tape
    /// at the requested size and report it with `attach_texture`.
    Allocate { release_texture: u32 },
    /// The loop length changed: clear every layer of `texture` to black.
    Reseed { texture: u32 },
}

/// Result of [`DelayRegistry::frame_tick`].
#[derive(Clone, Copy, Debug, PartialEq, Eq)]
pub struct TickStep {
    /// 1 for the first tick of a host frame, 0 for a later one.
    pub first_of_frame: u32,
    pub sizing: Sizing,
}

/// The counter after one step, wrapping at `u64::MAX`.
pub open spec fn next_counter(x: u64) -> u64 {
    if x == u64::MAX {
        0
    } else {
        (x + 1) as u64
    }
}

/// A channel nobody uses.
pub open spec fn empty_channel() -> Channel {
    Channel { buffer: None, refcount: 0, frame_index: 0, frame_id: 0, frame_active: false }
}

impl Channel {
    /// After one more instance acquired the channel.
    pub open spec fn acquired(self) -> Channel {
        Channel { refcount: (self.refcount + 1) as u32, ..self }
    }

    /// After one instance released the channel: the refcount drops (not below
    /// zero); the last release drops the buffer, stops the barrier and resets
    /// the counter.
    pub open spec fn released(self) -> Channel {
        if self.refcount <= 1 {
            Channel {
                buffer: None,
                refcount: 0,
                frame_index: 0,
                frame_id: self.frame_id,
                frame_active: false,
            }
        } else {
            Channel { refcount: (self.refcount - 1) as u32, ..self }
        }
    }

    /// Whether a tick with non-zero `width` x `height` must allocate a new tape.
    pub open spec fn needs_alloc(self, width: u32, height: u32) -> bool {
        match self.buffer {
            None => true,
            Some(b) => b.width != width || b.height != height,
        }
    }

    /// The channel after the sizing half of a tick. Only a tick with non-zero
    /// dimensions (a Write) sizes; a fresh tape holds no texture until it is
    /// attached.
    pub open spec fn sized(self, loop_length: u32, width: u32, height: u32) -> Channel {
        let len: u32 = clamped_loop_length(loop_length as int, MAX_LOOP as int) as u32;
        if width == 0 || height == 0 {
            self
        } else if self.needs_alloc(width, height) {
            Channel {
                buffer: Some(TapeBuffer { texture: 0, loop_length: len, width, height }),
                ..self
            }
        } else {
            let b = self.buffer.unwrap();
            Channel { buffer: Some(TapeBuffer { loop_length: len, ..b }), ..self }
        }
    }

    /// The GPU work the sizing half of a tick asks for.
    pub open spec fn sizing(self, loop_length: u32, width: u32, height: u32) -> Sizing {
        let len: int = clamped_loop_length(loop_length as int, MAX_LOOP as int);
        if width == 0 || height == 0 {
            Sizing::Keep
        } else if self.needs_alloc(width, height) {
            Sizing::Allocate {
                release_texture: match self.buffer {
                    Some(b) => b.texture,
                    None => 0,
                },
            }
        } else if self.buffer.unwrap().loop_length != len {
            Sizing::Reseed { texture: self.buffer.unwrap().texture }
        } else {
            Sizing::Keep
        }
    }

    /// Whether a tick with `frame_id` is the first of its host frame.
    pub open spec fn first_of_frame(self, frame_id: u64) -> bool {
        !self.frame_active || self.frame_id != frame_id
    }

    /// The channel after the barrier half of a tick.
    pub open spec fn barrier(self, frame_id: u64) -> Channel {
        if self.first_of_frame(frame_id) {
            Channel {
                frame_index: next_counter(self.frame_index),
                frame_id,
                frame_active: true,
                ..self
            }
        } else {
            self
        }
    }

    /// The channel after a whole tick.
    pub open spec fn ticked(self, loop_length: u32, width: u32, height: u32, frame_id: u64) -> Channel {
        self.sized(loop_length, width, height).barrier(frame_id)
    }

    /// The texture name a reader sees: 0 without a buffer.
    pub open spec fn texture(self) -> u32 {
        match self.buffer {
            Some(b) => b.texture,
            None => 0,
        }
    }

    /// The ring size a reader sees: `loop_length + 1`, 0 without a buffer.
    pub open spec fn ring_size(self) -> int {
        match self.buffer {
            Some(b) => b.loop_length + 1,
            None => 0,
        }
    }

    /// The buffer's loop length is in `1..=MAX_LOOP`.
    pub open spec fn well_sized(self) -> bool {
        match self.buffer {
            Some(b) => 1 <= b.loop_length <= MAX_LOOP,
            None => true,
        }
    }
}

fn empty() -> (c: Channel)
    ensures
        c == empty_channel(),
{
    Channel { buffer: None, refcount: 0, frame_index: 0, frame_id: 0, frame_active: false }
}

/// The registry of all channels.
pub struct DelayRegistry {
    channels: Vec<Channel>,
}

impl View for DelayRegistry {
    type V = Seq<Channel>;

    closed spec fn view(&self) -> Seq<Channel> {
        self.channels@
    }
}

impl DelayRegistry {
    /// `NUM_CHANNELS` channels, each with a loop length in range.
    pub open spec fn wf(&self) -> bool {
        &&& self@.len() == NUM_CHANNELS
        &&& forall|i: int| 0 <= i < NUM_CHANNELS ==> (#[trigger] self@[i]).well_sized()
    }

    /// A registry with every channel unused.
    pub fn new() -> (r: Self)
        ensures
            r.wf(),
            r@ == seq![empty_channel(), empty_channel()],
    {
        let mut channels: Vec<Channel> = Vec::new();
        channels.push(empty());
        channels.push(empty());
        DelayRegistry { channels }
    }

    /// Maximum ring depth, so plugins can clamp their loop-length UI.
    pub fn buffer_depth() -> (d: u32)
        ensures
            d == BUFFER_DEPTH,
    {
        BUFFER_DEPTH
    }

    /// Register an instance's use of `channel`. Out-of-range channels are a no-op.
    pub fn acquire(&mut self, channel: usize)
        requires
            old(self).wf(),
            channel < NUM_CHANNELS ==> old(self)@[channel as int].refcount < u32::MAX,
        ensures
            final(self).wf(),
            channel < NUM_CHANNELS ==> final(self)@ == old(self)@.update(
                channel as int,
                old(self)@[channel as int].acquired(),
            ),
            channel >= NUM_CHANNELS ==> final(self)@ == old(self)@,
            // One more user; nothing else about the channel changes.
            channel < NUM_CHANNELS ==> final(self)@[channel as int].refcount == old(self)@[channel as int].refcount + 1
                && final(self)@[channel as int].buffer == old(self)@[channel as int].buffer
                && final(self)@[channel as int].frame_index == old(self)@[channel as int].frame_index
                && final(self)@[channel as int].frame_active == old(self)@[channel as int].frame_active,
    {
        if channel >= NUM_CHANNELS {
            return;
        }
        let mut c = self.channels[channel];
        c.refcount = c.refcount + 1;
        self.channels.set(channel, c);
        assert(self@ =~= old(self)@.update(channel as int, old(self)@[channel as int].acquired()));
    }

    /// Unregister an instance. The last release of a channel drops its buffer
    /// (the texture name is not deleted here: this may run off the GL thread),
    /// stops the barrier and resets the frame counter.
    pub fn release(&mut self, channel: usize)
        requires
            old(self).wf(),
        ensures
            final(self).wf(),
            channel < NUM_CHANNELS ==> final(self)@ == old(self)@.update(
                channel as int,
                old(self)@[channel as int].released(),
            ),
            channel >= NUM_CHANNELS ==> final(self)@ == old(self)@,
            // One user fewer (never below zero); the last one frees the channel.
            channel < NUM_CHANNELS ==> {
                let c = old(self)@[channel as int];
                let n = final(self)@[channel as int];
                &&& c.refcount >= 1 ==> n.refcount == c.refcount - 1
                &&& c.refcount == 0 ==> n.refcount == 0
                &&& c.refcount <= 1 ==> n.buffer is None && n.frame_index == 0 && !n.frame_active
                &&& c.refcount > 1 ==> n.buffer == c.buffer && n.frame_index == c.frame_index
                    && n.frame_active == c.frame_active && n.frame_id == c.frame_id
            },
    {
        if channel >= NUM_CHANNELS {
            return;
        }
        let mut c = self.channels[channel];
        c.refcount = c.refcount.saturating_sub(1);
        if c.refcount == 0 {
            c.buffer = None;
            c.frame_active = false;
            c.frame_index = 0;
        }
        self.channels.set(channel, c);
        assert(self@ =~= old(self)@.update(channel as int, old(self)@[channel as int].released()));
    }

    /// Tick `channel` for the current host frame.
    ///
    /// 1. Sizing, only when `width` and `height` are both non-zero (a Write; a
    ///    Tap ticks with zeros and never touches the buffer): a missing buffer
    ///    or one of another size is replaced by a fresh one (`Sizing::Allocate`);
    ///    otherwise a changed loop length is latched and the tape reseeded
    ///    (`Sizing::Reseed`). The loop length is clamped as `Ring::new(_, MAX_LOOP)`.
    /// 2. The frame barrier: the first tick of a `frame_id` advances the
    ///    channel's `frame_index` once and reports `first_of_frame == 1`; later
    ///    ticks with the same `frame_id` change nothing and report 0.
    ///
    /// Out-of-range channels are a no-op reporting 0 and `Sizing::Keep`.
    pub fn frame_tick(
        &mut self,
        channel: usize,
        loop_length: u32,
        width: u32,
        height: u32,
        frame_id: u64,
    ) -> (step: TickStep)
        requires
            old(self).wf(),
        ensures
            final(self).wf(),
            channel < NUM_CHANNELS ==> {
                let c = old(self)@[channel as int];
                &&& final(self)@ == old(self)@.update(
                    channel as int,
                    c.ticked(loop_length, width, height, frame_id),
                )
                &&& step.sizing == c.sizing(loop_length, width, height)
                &&& step.first_of_frame == (if c.first_of_frame(frame_id) {
                    1u32
                } else {
                    0u32
                })
            },
            channel >= NUM_CHANNELS ==> final(self)@ == old(self)@ && step == (TickStep {
                first_of_frame: 0,
                sizing: Sizing::Keep,
            }),
            // A Write tick leaves a tape of exactly the requested size, with the
            // loop length clamped to `1..=MAX_LOOP`.
            channel < NUM_CHANNELS && width != 0 && height != 0 ==> {
                let b = final(self)@[channel as int].buffer;
                &&& b is Some
                &&& b.unwrap().width == width
                &&& b.unwrap().height == height
                &&& 1 <= loop_length <= MAX_LOOP ==> b.unwrap().loop_length == loop_length
                &&& loop_length == 0 ==> b.unwrap().loop_length == 1
                &&& loop_length > MAX_LOOP ==> b.unwrap().loop_length == MAX_LOOP
            },
            // A tape differing in either dimension (or none) is replaced.
            channel < NUM_CHANNELS && width != 0 && height != 0 ==> {
                let c = old(self)@[channel as int];
                (c.buffer is None || c.buffer.unwrap().width != width || c.buffer.unwrap().height
                    != height) ==> step.sizing == (Sizing::Allocate {
                    release_texture: if c.buffer is Some {
                        c.buffer.unwrap().texture
                    } else {
                        0
                    },
                })
            },
            // Same size, different loop length: the tape is kept and reseeded.
            channel < NUM_CHANNELS && width != 0 && height != 0 ==> {
                let c = old(self)@[channel as int];
                (c.buffer is Some && c.buffer.unwrap().width == width && c.buffer.unwrap().height
                    == height && c.buffer.unwrap().loop_length
                    != final(self)@[channel as int].buffer.unwrap().loop_length) ==> step.sizing == (Sizing::Reseed {
                    texture: c.buffer.unwrap().texture,
                }) && final(self)@[channel as int].buffer.unwrap().texture
                    == c.buffer.unwrap().texture
            },
            // Same size and loop length, or a Tap tick: nothing to do, tape unchanged.
            channel < NUM_CHANNELS ==> {
                let c = old(self)@[channel as int];
                (width == 0 || height == 0 || (c.buffer is Some && c.buffer.unwrap().width == width
                    && c.buffer.unwrap().height == height && c.buffer.unwrap().loop_length
                    == final(self)@[channel as int].buffer.unwrap().loop_length)) ==> step.sizing
                    == Sizing::Keep && final(self)@[channel as int].buffer == c.buffer
            },
            // The barrier: first of a host frame iff not active or another frame id;
            // only then does the counter advance, by one.
            channel < NUM_CHANNELS ==> {
                let c = old(self)@[channel as int];
                let n = final(self)@[channel as int];
                &&& (step.first_of_frame == 1) == (!c.frame_active || c.frame_id != frame_id)
                &&& (step.first_of_frame == 0) == (c.frame_active && c.frame_id == frame_id)
                &&& (!c.frame_active || c.frame_id != frame_id) ==> n.frame_index == (
                if c.frame_index == u64::MAX {
                    0
                } else {
                    c.frame_index + 1
                })
                &&& (c.frame_active && c.frame_id == frame_id) ==> n.frame_index == c.frame_index
                &&& n.frame_active
                &&& n.frame_id == frame_id
                &&& n.refcount == c.refcount
            },
    {
        if channel >= NUM_CHANNELS {
            return TickStep { first_of_frame: 0, sizing: Sizing::Keep };
        }
        let ghost c0 = self@[channel as int];
        let mut c = self.channels[channel];
        let mut sizing = Sizing::Keep;
        if width != 0 && height != 0 {
            let len: u32 = Ring::new(loop_length, MAX_LOOP).loop_length;
            let needs_alloc = match &c.buffer {
                Some(b) => b.width != width || b.height != height,
                None => true,
            };
            if needs_alloc {
                let release_texture: u32 = match &c.buffer {
                    Some(b) => b.texture,
                    None => 0,
                };
                sizing = Sizing::Allocate { release_texture };
                c.buffer = Some(TapeBuffer { texture: 0, loop_length: len, width, height });
            } else {
                let mut b = c.buffer.unwrap();
                if b.loop_length != len {
                    sizing = Sizing::Reseed { texture: b.texture };
                    b.loop_length = len;
                    c.buffer = Some(b);
                }
            }
        }
        assert(c == c0.sized(loop_length, width, height));
        let first = !c.frame_active || c.frame_id != frame_id;
        if first {
            c.frame_index = c.frame_index.wrapping_add(1);
            c.frame_id = frame_id;
            c.frame_active = true;
        }
        self.channels.set(channel, c);
        assert(self@ =~= old(self)@.update(
            channel as int,
            c0.ticked(loop_length, width, height, frame_id),
        ));
        TickStep { first_of_frame: if first { 1 } else { 0 }, sizing }
    }

    /// Record the texture name allocated for `channel`'s tape (0 on failure).
    /// A no-op when the channel is out of range or has no buffer.
    pub fn attach_texture(&mut self, channel: usize, texture: u32)
        requires
            old(self).wf(),
        ensures
            final(self).wf(),
            channel < NUM_CHANNELS && old(self)@[channel as int].buffer is Some ==> {
                let c = old(self)@[channel as int];
                final(self)@ == old(self)@.update(
                    channel as int,
                    Channel {
                        buffer: Some(TapeBuffer { texture, ..c.buffer.unwrap() }),
                        ..c
                    },
                )
            },
            !(channel < NUM_CHANNELS && old(self)@[channel as int].buffer is Some)
                ==> final(self)@ == old(self)@,
    {
        if channel >= NUM_CHANNELS {
            return;
        }
        let mut c = self.channels[channel];
        match c.buffer {
            Some(b) => {
                c.buffer = Some(TapeBuffer { texture, ..b });
                self.channels.set(channel, c);
                assert(self@ =~= old(self)@.update(channel as int, c));
            },
            None => {},
        }
    }

    /// Texture name of the channel's tape, or 0 if unallocated or out of range.
    pub fn tex(&self, channel: usize) -> (t: u32)
        requires
            self.wf(),
        ensures
            t == (if channel < NUM_CHANNELS {
                self@[channel as int].texture()
            } else {
                0
            }),
            channel < NUM_CHANNELS && self@[channel as int].buffer is Some ==> t == self@[channel as int].buffer.unwrap().texture,
            !(channel < NUM_CHANNELS && self@[channel as int].buffer is Some) ==> t == 0,
    {
        if channel >= NUM_CHANNELS {
            return 0;
        }
        match &self.channels[channel].buffer {
            Some(b) => b.texture,
            None => 0,
        }
    }

    /// The channel's monotonic frame counter (0 before the first tick or when
    /// out of range).
    pub fn frame_index(&self, channel: usize) -> (fi: u64)
        requires
            self.wf(),
        ensures
            fi == (if channel < NUM_CHANNELS {
                self@[channel as int].frame_index
            } else {
                0
            }),
    {
        if channel >= NUM_CHANNELS {
            return 0;
        }
        self.channels[channel].frame_index
    }

    /// Ring size `loop_length + 1`, or 0 if unallocated or out of range.
    pub fn buf_size(&self, channel: usize) -> (n: u32)
        requires
            self.wf(),
        ensures
            n == (if channel < NUM_CHANNELS {
                self@[channel as int].ring_size()
            } else {
                0
            }),
            channel < NUM_CHANNELS && self@[channel as int].buffer is Some ==> n == self@[channel as int].buffer.unwrap().loop_length + 1,
            !(channel < NUM_CHANNELS && self@[channel as int].buffer is Some) ==> n == 0,
    {
        if channel >= NUM_CHANNELS {
            return 0;
        }
        let c = self.channels[channel];
        assert(c.well_sized());
        match &c.buffer {
            Some(b) => b.loop_length + 1,
            None => 0,
        }
    }

    /// The refcount of `channel` (0 when out of range).
    pub fn refcount(&self, channel: usize) -> (n: u32)
        requires
            self.wf(),
        ensures
            n == (if channel < NUM_CHANNELS {
                self@[channel as int].refcount
            } else {
                0
            }),
    {
        if channel >= NUM_CHANNELS {
            return 0;
        }
        self.channels[channel].refcount
    }
}

/// Frame barrier: within one host frame (`frame_id`) the first tick advances
/// `frame_index` by exactly one and every later tick, Tap or Write, leaves it
/// alone and reports that it was not first.
pub proof fn lemma_barrier_advances_once_per_frame(
    c: Channel,
    frame_id: u64,
    loop_length1: u32,
    width1: u32,
    height1: u32,
    loop_length2: u32,
    width2: u32,
    height2: u32,
)
    ensures
        c.ticked(loop_length1, width1, height1, frame_id).frame_index == (if c.first_of_frame(
            frame_id,
        ) {
            next_counter(c.frame_index)
        } else {
            c.frame_index
        }),
        !c.ticked(loop_length1, width1, height1, frame_id).first_of_frame(frame_id),
        c.ticked(loop_length1, width1, height1, frame_id).ticked(
            loop_length2,
            width2,
            height2,
            frame_id,
        ).frame_index == c.ticked(loop_length1, width1, height1, frame_id).frame_index,
{
}

/// A tick with a zero dimension (a Tap) never allocates, resizes or retunes
/// the tape, and asks for no GPU work.
pub proof fn lemma_tap_tick_never_sizes(c: Channel, loop_length: u32, width: u32, height: u32, frame_id: u64)
    requires
        width == 0 || height == 0,
    ensures
        c.ticked(loop_length, width, height, frame_id).buffer == c.buffer,
        c.sizing(loop_length, width, height) == Sizing::Keep,
{
}

/// After a Write tick the ring size readers see is the one `Ring::new(loop_length,
/// MAX_LOOP)` computes, so the plugins' slot arithmetic matches the tape.
pub proof fn lemma_write_tick_sizes_ring(c: Channel, loop_length: u32, width: u32, height: u32, frame_id: u64)
    requires
        width != 0,
        height != 0,
    ensures
        c.ticked(loop_length, width, height, frame_id).ring_size() == clamped_loop_length(
            loop_length as int,
            MAX_LOOP as int,
        ) + 1,
        c.ticked(loop_length, width, height, frame_id).well_sized(),
{
}

/// Acquire and release balance: releasing right after acquiring a channel that
/// already had a user gives back the same channel.
pub proof fn lemma_acquire_release_balance(c: Channel)
    requires
        1 <= c.refcount < u32::MAX,
    ensures
        c.acquired().released() == c,
{
}

/// The last release frees the channel: no texture, ring size 0, counter back
/// to 0, barrier stopped.
pub proof fn lemma_last_release_frees(c: Channel)
    requires
        c.refcount <= 1,
    ensures
        c.released().texture() == 0,
        c.released().ring_size() == 0,
        c.released().frame_index == 0,
        c.released().refcount == 0,
        !c.released().frame_active,
{
}

/// Draw order does not matter within a frame: a Tap, then the channel's Write
/// (same size, same loop length), then another Tap see the same frame counter,
/// ring size and texture, so both Taps read the same slot.
pub proof fn lemma_tap_write_tap_same_view(c: Channel, frame_id: u64, loop_length: u32, width: u32, height: u32)
    requires
        width != 0,
        height != 0,
        c.buffer is Some,
        c.buffer.unwrap().width == width,
        c.buffer.unwrap().height == height,
        c.buffer.unwrap().loop_length == clamped_loop_length(loop_length as int, MAX_LOOP as int),
    ensures
        ({
            let tap1 = c.ticked(0, 0, 0, frame_id);
            let tap2 = tap1.ticked(loop_length, width, height, frame_id).ticked(0, 0, 0, frame_id);
            &&& tap2.frame_index == tap1.frame_index
            &&& tap2.ring_size() == tap1.ring_size()
            &&& tap2.texture() == tap1.texture()
        }),
{
}

/// A Write of a new size replaces the tape; a Write of the same size with a
/// different loop length keeps the tape but reseeds it to black, since the new
/// modulus scrambles which frame every slot holds.
pub proof fn lemma_write_sizing_outcomes(c: Channel, loop_length: u32, width: u32, height: u32)
    requires
        width != 0,
        height != 0,
        c.buffer is Some,
    ensures
        (c.buffer.unwrap().width != width || c.buffer.unwrap().height != height) ==> c.sizing(
            loop_length,
            width,
            height,
        ) == (Sizing::Allocate { release_texture: c.buffer.unwrap().texture }),
        (c.buffer.unwrap().width == width && c.buffer.unwrap().height == height
            && c.buffer.unwrap().loop_length != clamped_loop_length(
            loop_length as int,
            MAX_LOOP as int,
        )) ==> c.sizing(loop_length, width, height) == (Sizing::Reseed {
            texture: c.buffer.unwrap().texture,
        }),
{
}

/// A Write tick latches its size and loop length: the next Write tick of the
/// same size and loop length has nothing to do, while one that changes either
/// dimension replaces the tape.
pub proof fn lemma_write_tick_size_is_latched(
    c: Channel,
    loop_length: u32,
    width: u32,
    height: u32,
    frame_id: u64,
    next_frame_id: u64,
    w2: u32,
    h2: u32,
)
    requires
        width != 0,
        height != 0,
        w2 != 0,
        h2 != 0,
    ensures
        c.ticked(loop_length, width, height, frame_id).buffer is Some,
        c.ticked(loop_length, width, height, frame_id).buffer.unwrap().width == width,
        c.ticked(loop_length, width, height, frame_id).buffer.unwrap().height == height,
        c.ticked(loop_length, width, height, frame_id).sizing(loop_length, width, height)
            == Sizing::Keep,
        (w2 != width || h2 != height) ==> c.ticked(loop_length, width, height, frame_id).sizing(
            loop_length,
            w2,
            h2,
        ) == (Sizing::Allocate {
            release_texture: c.ticked(loop_length, width, height, frame_id).texture(),
        }),
{
}

} // verus!
