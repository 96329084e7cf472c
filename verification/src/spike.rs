//! The stage-0 shared registry: the minimal model of the two-plugin split.
//!
//! Two independently loaded plugins bind one registry and must see each
//! other's channel state: a buffer handle standing in for a GPU texture, a
//! value one plugin writes and the other reads, and the per-frame barrier.

use vstd::prelude::*;

verus! {

/// Number of channels.
pub const SPIKE_CHANNELS: usize = 2;

/// Base of the stand-in buffer handles: channel `ch` gets `SPIKE_HANDLE_BASE + ch`.
pub const SPIKE_HANDLE_BASE: u64 = 0x1000;

/// One channel's entry.
#[derive(Clone, Copy, Debug, PartialEq, Eq)]
pub struct Entry {
    pub tex_handle: u64,
    pub last_value: u64,
    pub write_pos: u32,
    pub refcount: u32,
    pub frame_id: u64,
    pub frame_active: bool,
}

/// An unused entry.
pub open spec fn empty_entry() -> Entry {
    Entry { tex_handle: 0, last_value: 0, write_pos: 0, refcount: 0, frame_id: 0, frame_active: false }
}

/// `x + 1`, wrapping at `u32::MAX`.
pub open spec fn next_pos(x: u32) -> u32 {
    if x == u32::MAX {
        0
    } else {
        (x + 1) as u32
    }
}

impl Entry {
    /// After channel `ch` was acquired once more: the first user "allocates"
    /// the channel's buffer handle.
    pub open spec fn acquired(self, ch: int) -> Entry {
        Entry {
            refcount: (self.refcount + 1) as u32,
            tex_handle: if self.tex_handle == 0 {
                (SPIKE_HANDLE_BASE + ch) as u64
            } else {
                self.tex_handle
            },
            ..self
        }
    }

    /// After one release: the last one frees the whole entry.
    pub open spec fn released(self) -> Entry {
        if self.refcount <= 1 {
            empty_entry()
        } else {
            Entry { refcount: (self.refcount - 1) as u32, ..self }
        }
    }

    /// Whether beginning `frame_id` makes this caller its first writer.
    pub open spec fn first_of_frame(self, frame_id: u64) -> bool {
        !self.frame_active || self.frame_id != frame_id
    }

    /// After a writer began `frame_id`: the first writer of a frame advances
    /// `write_pos` once.
    pub open spec fn begun(self, frame_id: u64) -> Entry {
        if self.first_of_frame(frame_id) {
            Entry { frame_id, frame_active: true, write_pos: next_pos(self.write_pos), ..self }
        } else {
            self
        }
    }
}

fn empty() -> (e: Entry)
    ensures
        e == empty_entry(),
{
    Entry { tex_handle: 0, last_value: 0, write_pos: 0, refcount: 0, frame_id: 0, frame_active: false }
}

/// The shared registry.
pub struct SpikeRegistry {
    entries: Vec<Entry>,
}

impl View for SpikeRegistry {
    type V = Seq<Entry>;

    closed spec fn view(&self) -> Seq<Entry> {
        self.entries@
    }
}

impl SpikeRegistry {
    /// `SPIKE_CHANNELS` entries.
    pub open spec fn wf(&self) -> bool {
        self@.len() == SPIKE_CHANNELS
    }

    /// A registry with every channel unused.
    pub fn new() -> (r: Self)
        ensures
            r.wf(),
            r@ == seq![empty_entry(), empty_entry()],
    {
        let mut entries: Vec<Entry> = Vec::new();
        entries.push(empty());
        entries.push(empty());
        SpikeRegistry { entries }
    }

    /// Acquire `ch`; the first user allocates its handle. Out of range: no-op.
    pub fn acquire(&mut self, ch: usize)
        requires
            old(self).wf(),
            ch < SPIKE_CHANNELS ==> old(self)@[ch as int].refcount < u32::MAX,
        ensures
            final(self).wf(),
            ch < SPIKE_CHANNELS ==> final(self)@ == old(self)@.update(
                ch as int,
                old(self)@[ch as int].acquired(ch as int),
            ),
            ch >= SPIKE_CHANNELS ==> final(self)@ == old(self)@,
            ch < SPIKE_CHANNELS ==> {
                let e = old(self)@[ch as int];
                let n = final(self)@[ch as int];
                &&& n.refcount == e.refcount + 1
                &&& e.tex_handle == 0 ==> n.tex_handle == SPIKE_HANDLE_BASE + ch
                &&& e.tex_handle != 0 ==> n.tex_handle == e.tex_handle
                &&& n.last_value == e.last_value && n.write_pos == e.write_pos
            },
    {
        if ch >= SPIKE_CHANNELS {
            return;
        }
        let mut e = self.entries[ch];
        e.refcount = e.refcount + 1;
        if e.tex_handle == 0 {
            e.tex_handle = SPIKE_HANDLE_BASE + ch as u64;
        }
        self.entries.set(ch, e);
        assert(self@ =~= old(self)@.update(ch as int, old(self)@[ch as int].acquired(ch as int)));
    }

    /// Release `ch` and return the remaining refcount; the last release frees
    /// the entry. Out of range: no-op returning 0.
    pub fn release(&mut self, ch: usize) -> (n: u32)
        requires
            old(self).wf(),
        ensures
            final(self).wf(),
            ch < SPIKE_CHANNELS ==> final(self)@ == old(self)@.update(
                ch as int,
                old(self)@[ch as int].released(),
            ) && n == old(self)@[ch as int].released().refcount,
            ch >= SPIKE_CHANNELS ==> final(self)@ == old(self)@ && n == 0,
            ch < SPIKE_CHANNELS ==> {
                let e = old(self)@[ch as int];
                let m = final(self)@[ch as int];
                &&& e.refcount >= 1 ==> n == e.refcount - 1
                &&& e.refcount == 0 ==> n == 0
                &&& m.refcount == n
                &&& n == 0 ==> m.tex_handle == 0 && m.last_value == 0 && m.write_pos == 0
                    && !m.frame_active && m.frame_id == 0
                &&& n != 0 ==> m.tex_handle == e.tex_handle && m.last_value == e.last_value
                    && m.write_pos == e.write_pos
            },
    {
        if ch >= SPIKE_CHANNELS {
            return 0;
        }
        let mut e = self.entries[ch];
        e.refcount = e.refcount.saturating_sub(1);
        if e.refcount == 0 {
            e = empty();
        }
        self.entries.set(ch, e);
        assert(self@ =~= old(self)@.update(ch as int, old(self)@[ch as int].released()));
        e.refcount
    }

    /// Begin a frame's writes: 1 if this is the first writer of `frame_id`
    /// (advancing `write_pos`), 0 for a later writer in the same frame.
    pub fn begin_frame(&mut self, ch: usize, frame_id: u64) -> (first: u32)
        requires
            old(self).wf(),
        ensures
            final(self).wf(),
            ch < SPIKE_CHANNELS ==> final(self)@ == old(self)@.update(
                ch as int,
                old(self)@[ch as int].begun(frame_id),
            ) && first == (if old(self)@[ch as int].first_of_frame(frame_id) {
                1u32
            } else {
                0u32
            }),
            ch >= SPIKE_CHANNELS ==> final(self)@ == old(self)@ && first == 0,
            ch < SPIKE_CHANNELS ==> {
                let e = old(self)@[ch as int];
                let m = final(self)@[ch as int];
                &&& (first == 1) == (!e.frame_active || e.frame_id != frame_id)
                &&& first <= 1
                &&& first == 1 ==> m.write_pos == (if e.write_pos == u32::MAX { 0 } else { e.write_pos + 1 })
                &&& first == 0 ==> m.write_pos == e.write_pos
                &&& m.frame_active && m.frame_id == frame_id
                &&& m.last_value == e.last_value && m.tex_handle == e.tex_handle && m.refcount == e.refcount
            },
    {
        if ch >= SPIKE_CHANNELS {
            return 0;
        }
        let mut e = self.entries[ch];
        if !e.frame_active || e.frame_id != frame_id {
            e.frame_id = frame_id;
            e.frame_active = true;
            e.write_pos = e.write_pos.wrapping_add(1);
            self.entries.set(ch, e);
            assert(self@ =~= old(self)@.update(ch as int, old(self)@[ch as int].begun(frame_id)));
            1
        } else {
            assert(self@ =~= old(self)@.update(ch as int, old(self)@[ch as int].begun(frame_id)));
            0
        }
    }

    /// Store `value` as the channel's content. Out of range: no-op.
    pub fn write_value(&mut self, ch: usize, value: u64)
        requires
            old(self).wf(),
        ensures
            final(self).wf(),
            ch < SPIKE_CHANNELS ==> final(self)@ == old(self)@.update(
                ch as int,
                Entry { last_value: value, ..old(self)@[ch as int] },
            ),
            ch >= SPIKE_CHANNELS ==> final(self)@ == old(self)@,
    {
        if ch < SPIKE_CHANNELS {
            let mut e = self.entries[ch];
            e.last_value = value;
            self.entries.set(ch, e);
            assert(self@ =~= old(self)@.update(ch as int, e));
        }
    }

    /// The channel's content (0 when out of range).
    pub fn last_value(&self, ch: usize) -> (v: u64)
        requires
            self.wf(),
        ensures
            v == (if ch < SPIKE_CHANNELS {
                self@[ch as int].last_value
            } else {
                0
            }),
    {
        if ch >= SPIKE_CHANNELS {
            0
        } else {
            self.entries[ch].last_value
        }
    }

    /// The channel's buffer handle (0 when unallocated or out of range).
    pub fn tex_handle(&self, ch: usize) -> (h: u64)
        requires
            self.wf(),
        ensures
            h == (if ch < SPIKE_CHANNELS {
                self@[ch as int].tex_handle
            } else {
                0
            }),
    {
        if ch >= SPIKE_CHANNELS {
            0
        } else {
            self.entries[ch].tex_handle
        }
    }

    /// The channel's write position (0 when out of range).
    pub fn write_pos(&self, ch: usize) -> (p: u32)
        requires
            self.wf(),
        ensures
            p == (if ch < SPIKE_CHANNELS {
                self@[ch as int].write_pos
            } else {
                0
            }),
    {
        if ch >= SPIKE_CHANNELS {
            0
        } else {
            self.entries[ch].write_pos
        }
    }

    /// The channel's refcount (0 when out of range).
    pub fn refcount(&self, ch: usize) -> (n: u32)
        requires
            self.wf(),
        ensures
            n == (if ch < SPIKE_CHANNELS {
                self@[ch as int].refcount
            } else {
                0
            }),
    {
        if ch >= SPIKE_CHANNELS {
            0
        } else {
            self.entries[ch].refcount
        }
    }
}

/// Shared state: every user of a channel sees one buffer handle, fixed by the
/// first acquire and kept while the channel is held.
pub proof fn lemma_shared_handle(e: Entry, ch: int)
    requires
        0 <= ch < SPIKE_CHANNELS,
        e.refcount < u32::MAX - 1,
        e.refcount == 0 ==> e.tex_handle == 0,
    ensures
        e.acquired(ch).tex_handle != 0,
        e.acquired(ch).acquired(ch).tex_handle == e.acquired(ch).tex_handle,
        e.refcount == 0 ==> e.acquired(ch).tex_handle == SPIKE_HANDLE_BASE + ch,
{
}

/// Frame barrier: within one frame only the first writer advances `write_pos`.
pub proof fn lemma_one_advance_per_frame(e: Entry, frame_id: u64)
    ensures
        !e.begun(frame_id).first_of_frame(frame_id),
        e.begun(frame_id).begun(frame_id) == e.begun(frame_id),
        e.begun(frame_id).write_pos == (if e.first_of_frame(frame_id) {
            next_pos(e.write_pos)
        } else {
            e.write_pos
        }),
{
}

/// The last release frees the channel entirely, so it reports no handle.
pub proof fn lemma_final_release_frees(e: Entry)
    requires
        e.refcount <= 1,
    ensures
        e.released() == empty_entry(),
        e.released().tex_handle == 0,
{
}

} // verus!
