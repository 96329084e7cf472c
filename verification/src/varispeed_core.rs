//! The shared tapes and write-cursor barriers of the varispeed looper.
//!
//! `NUM_CHANNELS` independent tapes, each with a refcount, an optional buffer,
//! the write cursor `record_index` and the Confine-mode handoff between a
//! Read (which publishes the slot its play head sits on) and the Write (which
//! records back into it). The cursor advances only while the Write records
//! ([`VarispeedRegistry::write_tick`]); freezing is simply not ticking, so the
//! loop window parks with no separate freeze state.
//!
//! As in [`crate::delay_core`], the registry decides and the caller does the
//! GPU work it reports.

use vstd::prelude::*;
use crate::delay_core::next_counter;

verus! {

/// Ring depth (layers): a 60-frame maximum loop plus the stitch slot.
pub const VS_BUFFER_DEPTH: u32 = 61;

/// Number of independent tapes.
pub const VS_NUM_CHANNELS: u32 = 2;

/// One tape's allocated buffer.
#[derive(Clone, Copy, Debug, PartialEq, Eq)]
pub struct VsBuffer {
    /// Texture-array name; 0 when the allocation failed or is still pending.
    pub texture: u32,
    pub width: u32,
    pub height: u32,
}

/// One channel's tape state.
#[derive(Clone, Copy, Debug, PartialEq, Eq)]
pub struct Tape {
    pub buffer: Option<VsBuffer>,
    pub refcount: u32,
    /// Write cursor: advances once per host frame while recording (wraps at `u64`).
    pub record_index: u64,
    /// Host frame id of the frame last recorded (barrier de-dup key).
    pub frame_id: u64,
    pub frame_active: bool,
    /// Confine-mode handoff: the slot the Read's play head sits on.
    pub loop_slot: i64,
    /// The frame `loop_slot` was published for.
    pub loop_slot_frame: u64,
    /// Confined window length last published (0 before any).
    pub loop_len: u32,
    /// The Read that owns `loop_len` (0 before any).
    pub loop_owner: u64,
}

/// What the caller must do on the GPU after a write tick.
#[derive(Clone, Copy, Debug, PartialEq, Eq)]
pub enum VsSizing {
    /// Nothing to do.
    Keep,
    /// Delete `release_texture` (when non-zero), allocate a fresh cleared tape
    /// and report it with `attach_texture`.
    Allocate { release_texture: u32 },
}

/// Result of [`VarispeedRegistry::write_tick`].
#[derive(Clone, Copy, Debug, PartialEq, Eq)]
pub struct WriteStep {
    /// The write cursor after the tick; the Write records into
    /// `record_index mod VS_BUFFER_DEPTH`.
    pub record_index: u64,
    pub sizing: VsSizing,
}

/// A tape nobody uses.
pub open spec fn empty_tape() -> Tape {
    Tape {
        buffer: None,
        refcount: 0,
        record_index: 0,
        frame_id: 0,
        frame_active: false,
        loop_slot: -1i64,
        loop_slot_frame: 0,
        loop_len: 0,
        loop_owner: 0,
    }
}

impl Tape {
    /// After one more instance acquired the tape.
    pub open spec fn acquired(self) -> Tape {
        Tape { refcount: (self.refcount + 1) as u32, ..self }
    }

    /// After one instance released the tape: the last release drops the
    /// buffer, stops the barrier, parks the cursor at 0 and forgets the
    /// Confined window and its owner.
    pub open spec fn released(self) -> Tape {
        if self.refcount <= 1 {
            Tape {
                buffer: None,
                refcount: 0,
                frame_active: false,
                record_index: 0,
                loop_len: 0,
                loop_owner: 0,
                ..self
            }
        } else {
            Tape { refcount: (self.refcount - 1) as u32, ..self }
        }
    }

    /// Whether a write tick with non-zero `width` x `height` must allocate.
    pub open spec fn needs_alloc(self, width: u32, height: u32) -> bool {
        match self.buffer {
            None => true,
            Some(b) => b.width != width || b.height != height,
        }
    }

    /// The tape after a write tick.
    pub open spec fn write_ticked(self, width: u32, height: u32, frame_id: u64) -> Tape {
        let sized = if width != 0 && height != 0 && self.needs_alloc(width, height) {
            Tape { buffer: Some(VsBuffer { texture: 0, width, height }), ..self }
        } else {
            self
        };
        if sized.first_of_frame(frame_id) {
            Tape {
                record_index: next_counter(sized.record_index),
                frame_id,
                frame_active: true,
                ..sized
            }
        } else {
            sized
        }
    }

    /// The GPU work a write tick asks for.
    pub open spec fn write_sizing(self, width: u32, height: u32) -> VsSizing {
        if width != 0 && height != 0 && self.needs_alloc(width, height) {
            VsSizing::Allocate {
                release_texture: match self.buffer {
                    Some(b) => b.texture,
                    None => 0,
                },
            }
        } else {
            VsSizing::Keep
        }
    }

    /// Whether a write tick with `frame_id` is the first of its host frame.
    pub open spec fn first_of_frame(self, frame_id: u64) -> bool {
        !self.frame_active || self.frame_id != frame_id
    }

    /// Whether `owner` may set the Confined window length.
    pub open spec fn owned_by(self, owner: u64) -> bool {
        self.loop_owner == 0 || self.loop_owner == owner
    }

    /// Whether publishing window `len` as `owner` reseeds the tape to black:
    /// the owner changed an established window and a buffer exists.
    pub open spec fn reseeds(self, owner: u64, len: u32) -> bool {
        self.owned_by(owner) && len != self.loop_len && self.loop_len != 0 && self.buffer is Some
    }

    /// The tape after a Read published its loop slot.
    pub open spec fn slot_published(self, owner: u64, slot: u32, len: u32, frame_id: u64) -> Tape {
        Tape {
            loop_slot: slot as i64,
            loop_slot_frame: frame_id,
            loop_len: if self.owned_by(owner) {
                len
            } else {
                self.loop_len
            },
            loop_owner: owner,
            ..self
        }
    }

    /// The texture name a reader sees: 0 without a buffer.
    pub open spec fn texture(self) -> u32 {
        match self.buffer {
            Some(b) => b.texture,
            None => 0,
        }
    }

    /// The published loop slot as seen on `frame_id`: -1 unless published
    /// for that frame.
    pub open spec fn slot_on(self, frame_id: u64) -> i64 {
        if self.loop_slot_frame == frame_id {
            self.loop_slot
        } else {
            -1i64
        }
    }

    /// The Confined window length as seen on `frame_id`: -1 unless a slot was
    /// published for that frame.
    pub open spec fn len_on(self, frame_id: u64) -> i64 {
        if self.loop_slot_frame == frame_id {
            self.loop_len as i64
        } else {
            -1i64
        }
    }
}

fn empty() -> (t: Tape)
    ensures
        t == empty_tape(),
{
    Tape {
        buffer: None,
        refcount: 0,
        record_index: 0,
        frame_id: 0,
        frame_active: false,
        loop_slot: -1,
        loop_slot_frame: 0,
        loop_len: 0,
        loop_owner: 0,
    }
}

/// Validate a channel index: `Some(index)` when in range.
pub fn chan(channel: u32) -> (i: Option<usize>)
    ensures
        i == (if channel < VS_NUM_CHANNELS {
            Some(channel as usize)
        } else {
            None::<usize>
        }),
{
    if channel < VS_NUM_CHANNELS {
        Some(channel as usize)
    } else {
        None
    }
}

/// The registry of all tapes.
pub struct VarispeedRegistry {
    tapes: Vec<Tape>,
}

impl View for VarispeedRegistry {
    type V = Seq<Tape>;

    closed spec fn view(&self) -> Seq<Tape> {
        self.tapes@
    }
}

impl VarispeedRegistry {
    /// `VS_NUM_CHANNELS` tapes.
    pub open spec fn wf(&self) -> bool {
        self@.len() == VS_NUM_CHANNELS
    }

    /// A registry with every tape unused.
    pub fn new() -> (r: Self)
        ensures
            r.wf(),
            r@ == seq![empty_tape(), empty_tape()],
    {
        let mut tapes: Vec<Tape> = Vec::new();
        tapes.push(empty());
        tapes.push(empty());
        VarispeedRegistry { tapes }
    }

    /// Ring depth, so Read and Write can clamp their loop-length UI.
    pub fn depth() -> (d: u32)
        ensures
            d == VS_BUFFER_DEPTH,
    {
        VS_BUFFER_DEPTH
    }

    /// Number of independent tapes.
    pub fn channels() -> (n: u32)
        ensures
            n == VS_NUM_CHANNELS,
    {
        VS_NUM_CHANNELS
    }

    /// Register an instance's use of `channel`. Out-of-range channels are a no-op.
    pub fn acquire(&mut self, channel: u32)
        requires
            old(self).wf(),
            channel < VS_NUM_CHANNELS ==> old(self)@[channel as int].refcount < u32::MAX,
        ensures
            final(self).wf(),
            channel < VS_NUM_CHANNELS ==> final(self)@ == old(self)@.update(
                channel as int,
                old(self)@[channel as int].acquired(),
            ),
            channel >= VS_NUM_CHANNELS ==> final(self)@ == old(self)@,
            channel < VS_NUM_CHANNELS ==> final(self)@[channel as int].refcount == old(self)@[channel as int].refcount + 1
                && final(self)@[channel as int].buffer == old(self)@[channel as int].buffer
                && final(self)@[channel as int].record_index == old(self)@[channel as int].record_index
                && final(self)@[channel as int].loop_len == old(self)@[channel as int].loop_len,
    {
        let i: usize = match chan(channel) {
            Some(i) => i,
            None => return ,
        };
        let mut t = self.tapes[i];
        t.refcount = t.refcount + 1;
        self.tapes.set(i, t);
        assert(self@ =~= old(self)@.update(channel as int, old(self)@[channel as int].acquired()));
    }

    /// Unregister an instance; the last release frees the tape (the texture
    /// name is not deleted here: this may run off the GL thread).
    pub fn release(&mut self, channel: u32)
        requires
            old(self).wf(),
        ensures
            final(self).wf(),
            channel < VS_NUM_CHANNELS ==> final(self)@ == old(self)@.update(
                channel as int,
                old(self)@[channel as int].released(),
            ),
            channel >= VS_NUM_CHANNELS ==> final(self)@ == old(self)@,
            channel < VS_NUM_CHANNELS ==> {
                let t = old(self)@[channel as int];
                let n = final(self)@[channel as int];
                &&& t.refcount >= 1 ==> n.refcount == t.refcount - 1
                &&& t.refcount == 0 ==> n.refcount == 0
                &&& t.refcount <= 1 ==> n.buffer is None && n.record_index == 0 && !n.frame_active
                    && n.loop_len == 0 && n.loop_owner == 0
                &&& t.refcount > 1 ==> n.buffer == t.buffer && n.record_index == t.record_index
                    && n.loop_len == t.loop_len && n.loop_owner == t.loop_owner
                &&& n.loop_slot == t.loop_slot && n.loop_slot_frame == t.loop_slot_frame
            },
    {
        let i: usize = match chan(channel) {
            Some(i) => i,
            None => return ,
        };
        let mut t = self.tapes[i];
        t.refcount = t.refcount.saturating_sub(1);
        if t.refcount == 0 {
            t.buffer = None;
            t.frame_active = false;
            t.record_index = 0;
            t.loop_len = 0;
            t.loop_owner = 0;
        }
        self.tapes.set(i, t);
        assert(self@ =~= old(self)@.update(channel as int, old(self)@[channel as int].released()));
    }

    /// Called by the Write once per host frame while recording. A non-zero
    /// `width` x `height` that differs from the buffer (or no buffer) asks for
    /// a fresh tape; the first tick of a `frame_id` advances the write cursor
    /// once. Returns the cursor after the tick. Out of range: 0 and `Keep`.
    pub fn write_tick(&mut self, channel: u32, width: u32, height: u32, frame_id: u64) -> (step:
        WriteStep)
        requires
            old(self).wf(),
        ensures
            final(self).wf(),
            channel < VS_NUM_CHANNELS ==> {
                let t = old(self)@[channel as int];
                &&& final(self)@ == old(self)@.update(
                    channel as int,
                    t.write_ticked(width, height, frame_id),
                )
                &&& step.record_index == t.write_ticked(width, height, frame_id).record_index
                &&& step.sizing == t.write_sizing(width, height)
            },
            channel >= VS_NUM_CHANNELS ==> final(self)@ == old(self)@ && step == (WriteStep {
                record_index: 0,
                sizing: VsSizing::Keep,
            }),
            // A recording tick of a real size leaves a tape of exactly that size.
            channel < VS_NUM_CHANNELS && width != 0 && height != 0 ==> {
                let n = final(self)@[channel as int];
                n.buffer is Some && n.buffer.unwrap().width == width && n.buffer.unwrap().height
                    == height
            },
            // A tape differing in either dimension (or none) is replaced.
            channel < VS_NUM_CHANNELS && width != 0 && height != 0 ==> {
                let t = old(self)@[channel as int];
                (t.buffer is None || t.buffer.unwrap().width != width || t.buffer.unwrap().height
                    != height) ==> step.sizing == (VsSizing::Allocate {
                    release_texture: if t.buffer is Some {
                        t.buffer.unwrap().texture
                    } else {
                        0
                    },
                })
            },
            // A tape of the same size is kept as it is.
            channel < VS_NUM_CHANNELS ==> {
                let t = old(self)@[channel as int];
                (width == 0 || height == 0 || (t.buffer is Some && t.buffer.unwrap().width == width
                    && t.buffer.unwrap().height == height)) ==> step.sizing == VsSizing::Keep
                    && final(self)@[channel as int].buffer == t.buffer
            },
            // The cursor advances by one exactly on the first tick of a host frame.
            channel < VS_NUM_CHANNELS ==> {
                let t = old(self)@[channel as int];
                &&& (!t.frame_active || t.frame_id != frame_id) ==> step.record_index == (
                if t.record_index == u64::MAX {
                    0
                } else {
                    t.record_index + 1
                })
                &&& (t.frame_active && t.frame_id == frame_id) ==> step.record_index
                    == t.record_index
                &&& final(self)@[channel as int].record_index == step.record_index
            },
    {
        let i: usize = match chan(channel) {
            Some(i) => i,
            None => return WriteStep { record_index: 0, sizing: VsSizing::Keep },
        };
        let ghost t0 = self@[channel as int];
        let mut t = self.tapes[i];
        let mut sizing = VsSizing::Keep;
        if width != 0 && height != 0 {
            let needs_alloc = match &t.buffer {
                Some(b) => b.width != width || b.height != height,
                None => true,
            };
            if needs_alloc {
                let release_texture: u32 = match &t.buffer {
                    Some(b) => b.texture,
                    None => 0,
                };
                sizing = VsSizing::Allocate { release_texture };
                t.buffer = Some(VsBuffer { texture: 0, width, height });
            }
        }
        let first = !t.frame_active || t.frame_id != frame_id;
        if first {
            t.record_index = t.record_index.wrapping_add(1);
            t.frame_id = frame_id;
            t.frame_active = true;
        }
        assert(t == t0.write_ticked(width, height, frame_id));
        self.tapes.set(i, t);
        assert(self@ =~= old(self)@.update(channel as int, t));
        WriteStep { record_index: t.record_index, sizing }
    }

    /// Record the texture name allocated for `channel`'s tape (0 on failure).
    /// A no-op when the channel is out of range or has no buffer.
    pub fn attach_texture(&mut self, channel: u32, texture: u32)
        requires
            old(self).wf(),
        ensures
            final(self).wf(),
            channel < VS_NUM_CHANNELS && old(self)@[channel as int].buffer is Some ==> {
                let t = old(self)@[channel as int];
                final(self)@ == old(self)@.update(
                    channel as int,
                    Tape { buffer: Some(VsBuffer { texture, ..t.buffer.unwrap() }), ..t },
                )
            },
            !(channel < VS_NUM_CHANNELS && old(self)@[channel as int].buffer is Some)
                ==> final(self)@ == old(self)@,
    {
        let i: usize = match chan(channel) {
            Some(i) => i,
            None => return ,
        };
        let mut t = self.tapes[i];
        match t.buffer {
            Some(b) => {
                t.buffer = Some(VsBuffer { texture, ..b });
                self.tapes.set(i, t);
                assert(self@ =~= old(self)@.update(channel as int, t));
            },
            None => {},
        }
    }

    /// The current write cursor (0 when out of range). The Read anchors its
    /// loop window off it and never advances it.
    pub fn record_index(&self, channel: u32) -> (r: u64)
        requires
            self.wf(),
        ensures
            r == (if channel < VS_NUM_CHANNELS {
                self@[channel as int].record_index
            } else {
                0
            }),
    {
        match chan(channel) {
            Some(i) => self.tapes[i].record_index,
            None => 0,
        }
    }

    /// Confine mode: the Read `owner` publishes the slot its play head sits on
    /// and the window `len` it loops over, for host frame `frame_id`. Only the
    /// established owner (or the first publisher) may change the window; a
    /// change of an established window over an existing tape reseeds it: the
    /// result is the texture to clear to black. The publisher always becomes
    /// the owner. Out-of-range channels are a no-op.
    pub fn set_loop_slot(&mut self, channel: u32, owner: u64, slot: u32, len: u32, frame_id: u64) -> (reseed:
        Option<u32>)
        requires
            old(self).wf(),
        ensures
            final(self).wf(),
            channel < VS_NUM_CHANNELS ==> {
                let t = old(self)@[channel as int];
                &&& final(self)@ == old(self)@.update(
                    channel as int,
                    t.slot_published(owner, slot, len, frame_id),
                )
                &&& reseed == (if t.reseeds(owner, len) {
                    Some(t.texture())
                } else {
                    None::<u32>
                })
            },
            channel >= VS_NUM_CHANNELS ==> final(self)@ == old(self)@ && reseed is None,
            // The owner (or a first publisher) changing an established window,
            // shorter or longer, over an existing tape reseeds that tape.
            channel < VS_NUM_CHANNELS ==> {
                let t = old(self)@[channel as int];
                (t.loop_owner == 0 || t.loop_owner == owner) && t.loop_len != 0 && len
                    != t.loop_len && t.buffer is Some ==> reseed == Some(t.buffer.unwrap().texture)
            },
            // Nothing else reseeds.
            channel < VS_NUM_CHANNELS ==> {
                let t = old(self)@[channel as int];
                !((t.loop_owner == 0 || t.loop_owner == owner) && t.loop_len != 0 && len
                    != t.loop_len && t.buffer is Some) ==> reseed is None
            },
            // The owner's window becomes `len`; a non-owner's publication keeps it.
            channel < VS_NUM_CHANNELS ==> {
                let t = old(self)@[channel as int];
                &&& (t.loop_owner == 0 || t.loop_owner == owner) ==> final(self)@[channel as int].loop_len == len
                &&& !(t.loop_owner == 0 || t.loop_owner == owner) ==> final(self)@[channel as int].loop_len == t.loop_len
                &&& final(self)@[channel as int].loop_owner == owner
                &&& final(self)@[channel as int].buffer == t.buffer
                &&& final(self)@[channel as int].record_index == t.record_index
            },
            // The slot is published for exactly this frame.
            channel < VS_NUM_CHANNELS ==> final(self)@[channel as int].loop_slot == slot
                && final(self)@[channel as int].loop_slot_frame == frame_id,
    {
        let i: usize = match chan(channel) {
            Some(i) => i,
            None => return None,
        };
        let ghost t0 = self@[channel as int];
        let mut t = self.tapes[i];
        t.loop_slot = slot as i64;
        t.loop_slot_frame = frame_id;
        let owned = t.loop_owner == 0 || t.loop_owner == owner;
        let mut reseed: Option<u32> = None;
        if owned && len != t.loop_len {
            if t.loop_len != 0 {
                match &t.buffer {
                    Some(b) => {
                        reseed = Some(b.texture);
                    },
                    None => {},
                }
            }
            t.loop_len = len;
        }
        t.loop_owner = owner;
        assert(t == t0.slot_published(owner, slot, len, frame_id));
        self.tapes.set(i, t);
        assert(self@ =~= old(self)@.update(channel as int, t));
        reseed
    }

    /// The Confined window length published for `frame_id`, or -1 if none
    /// (or out of range).
    pub fn loop_len(&self, channel: u32, frame_id: u64) -> (l: i64)
        requires
            self.wf(),
        ensures
            l == (if channel < VS_NUM_CHANNELS {
                self@[channel as int].len_on(frame_id)
            } else {
                -1i64
            }),
            channel < VS_NUM_CHANNELS && self@[channel as int].loop_slot_frame == frame_id ==> l == self@[channel as int].loop_len,
            !(channel < VS_NUM_CHANNELS && self@[channel as int].loop_slot_frame == frame_id) ==> l == -1,
    {
        match chan(channel) {
            Some(i) => {
                let t = self.tapes[i];
                if t.loop_slot_frame == frame_id {
                    t.loop_len as i64
                } else {
                    -1
                }
            },
            None => -1,
        }
    }

    /// The Confine-mode write slot published for `frame_id`, or -1 if none
    /// (or out of range): a stale frame id reads as free-ring mode.
    pub fn loop_slot(&self, channel: u32, frame_id: u64) -> (s: i64)
        requires
            self.wf(),
        ensures
            s == (if channel < VS_NUM_CHANNELS {
                self@[channel as int].slot_on(frame_id)
            } else {
                -1i64
            }),
            channel < VS_NUM_CHANNELS && self@[channel as int].loop_slot_frame == frame_id ==> s == self@[channel as int].loop_slot,
            !(channel < VS_NUM_CHANNELS && self@[channel as int].loop_slot_frame == frame_id) ==> s == -1,
    {
        match chan(channel) {
            Some(i) => {
                let t = self.tapes[i];
                if t.loop_slot_frame == frame_id {
                    t.loop_slot
                } else {
                    -1
                }
            },
            None => -1,
        }
    }

    /// The tape's refcount (0 when out of range).
    pub fn refcount(&self, channel: u32) -> (n: u32)
        requires
            self.wf(),
        ensures
            n == (if channel < VS_NUM_CHANNELS {
                self@[channel as int].refcount
            } else {
                0
            }),
    {
        match chan(channel) {
            Some(i) => self.tapes[i].refcount,
            None => 0,
        }
    }

    /// Texture name of the tape, or 0 if unallocated or out of range.
    pub fn tex(&self, channel: u32) -> (tex: u32)
        requires
            self.wf(),
        ensures
            tex == (if channel < VS_NUM_CHANNELS {
                self@[channel as int].texture()
            } else {
                0
            }),
            channel < VS_NUM_CHANNELS && self@[channel as int].buffer is Some ==> tex == self@[channel as int].buffer.unwrap().texture,
            !(channel < VS_NUM_CHANNELS && self@[channel as int].buffer is Some) ==> tex == 0,
    {
        match chan(channel) {
            Some(i) => match &self.tapes[i].buffer {
                Some(b) => b.texture,
                None => 0,
            },
            None => 0,
        }
    }
}

/// Freeze for free: publishing a loop slot, reading, attaching a texture or
/// acquiring never moves the write cursor; only a write tick (or the last
/// release) does.
pub proof fn lemma_cursor_moves_only_on_write_tick(t: Tape, owner: u64, slot: u32, len: u32, frame_id: u64)
    requires
        t.refcount < u32::MAX,
    ensures
        t.slot_published(owner, slot, len, frame_id).record_index == t.record_index,
        t.acquired().record_index == t.record_index,
{
}

/// Write-cursor barrier: a second write tick in the same host frame does not
/// advance the cursor again.
pub proof fn lemma_write_tick_once_per_frame(t: Tape, frame_id: u64, w1: u32, h1: u32, w2: u32, h2: u32)
    ensures
        t.write_ticked(w1, h1, frame_id).record_index == (if t.first_of_frame(frame_id) {
            next_counter(t.record_index)
        } else {
            t.record_index
        }),
        t.write_ticked(w1, h1, frame_id).write_ticked(w2, h2, frame_id).record_index
            == t.write_ticked(w1, h1, frame_id).record_index,
{
}

/// The loop-slot handoff is frame-scoped: the Write sees the published slot on
/// the same frame and -1 on any other; the window length reads the same way.
pub proof fn lemma_handoff_is_frame_scoped(t: Tape, owner: u64, slot: u32, len: u32, frame_id: u64, other: u64)
    requires
        other != frame_id,
    ensures
        t.slot_published(owner, slot, len, frame_id).slot_on(frame_id) == slot as i64,
        t.slot_published(owner, slot, len, frame_id).slot_on(other) == -1i64,
        t.slot_published(owner, slot, len, frame_id).len_on(other) == -1i64,
        t.owned_by(owner) ==> t.slot_published(owner, slot, len, frame_id).len_on(frame_id)
            == len as i64,
{
}

/// Only the owner reseeds: a Read that does not own the established window
/// neither changes its length nor clears the tape, though it takes over the
/// slot handoff.
pub proof fn lemma_only_owner_reseeds(t: Tape, owner: u64, slot: u32, len: u32, frame_id: u64)
    requires
        !t.owned_by(owner),
    ensures
        !t.reseeds(owner, len),
        t.slot_published(owner, slot, len, frame_id).loop_len == t.loop_len,
        t.slot_published(owner, slot, len, frame_id).loop_owner == owner,
{
}

/// The owner of an established window that publishes any other length,
/// shorter or longer, over an existing tape reseeds it; republishing the same
/// window right after does not reseed again.
pub proof fn lemma_owner_window_change_reseeds(t: Tape, owner: u64, slot: u32, len: u32, frame_id: u64)
    requires
        t.loop_owner == 0 || t.loop_owner == owner,
        t.loop_len != 0,
        len != t.loop_len,
        t.buffer is Some,
    ensures
        t.reseeds(owner, len),
        !t.slot_published(owner, slot, len, frame_id).reseeds(owner, len),
        t.slot_published(owner, slot, len, frame_id).loop_len == len,
{
}

/// A recording tick of a real size leaves a tape of exactly that size, so the
/// next tick of the same size keeps it, while a tick that changes either
/// dimension replaces it.
pub proof fn lemma_write_tick_size_is_latched(t: Tape, width: u32, height: u32, frame_id: u64, w2: u32, h2: u32)
    requires
        width != 0,
        height != 0,
        w2 != 0,
        h2 != 0,
    ensures
        t.write_ticked(width, height, frame_id).buffer is Some,
        t.write_ticked(width, height, frame_id).buffer.unwrap().width == width,
        t.write_ticked(width, height, frame_id).buffer.unwrap().height == height,
        t.write_ticked(width, height, frame_id).write_sizing(width, height) == VsSizing::Keep,
        (w2 != width || h2 != height) ==> t.write_ticked(width, height, frame_id).write_sizing(
            w2,
            h2,
        ) == (VsSizing::Allocate {
            release_texture: t.write_ticked(width, height, frame_id).texture(),
        }),
{
}

} // verus!
