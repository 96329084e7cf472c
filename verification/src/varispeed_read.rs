//! The varispeed read head's per-frame bookkeeping: loop mode, when the Free
//! age is re-anchored, and how far the write cursor moved since last frame.
//!
//! Free mode floats an `age` behind the moving write cursor and advances it by
//! `dr - rate` each frame, where `dr` is how far the cursor moved (1 while the
//! Write records, 0 while it is frozen), so freezing needs no signal of its
//! own. The age is seeded to the anchor age on entry to Free and whenever the
//! loop length changes, which makes Loop Length the tap time. The floating-point
//! age and play head themselves are the caller's.

use vstd::prelude::*;

verus! {

/// How the tape length is specified.
#[derive(Clone, Copy, PartialEq, Eq, Debug)]
pub enum SyncMode {
    Subdivision,
    Ms,
    Frames,
}

impl SyncMode {
    /// The same choice in the timing module's terms.
    pub fn timing_mode(self) -> (m: crate::timing::SyncMode)
        ensures
            self is Subdivision ==> m is Subdivision,
            self is Ms ==> m is Ms,
            self is Frames ==> m is Frames,
    {
        match self {
            SyncMode::Subdivision => crate::timing::SyncMode::Subdivision,
            SyncMode::Ms => crate::timing::SyncMode::Ms,
            SyncMode::Frames => crate::timing::SyncMode::Frames,
        }
    }
}

/// Where the Write lands relative to the read head.
#[derive(Clone, Copy, PartialEq, Eq, Debug)]
pub enum LoopMode {
    /// Write at the moving cursor; the read floats `age` behind it.
    Free,
    /// Fixed `[0, loop)` window, in-place recirculating feedback.
    Confined,
}

/// The longest read window a `depth`-layer ring allows: `max(depth - 1, 1)`
/// (the newest layer belongs to the Write).
pub fn max_loop_len(depth: u32) -> (m: u32)
    ensures
        m == (if depth <= 2 {
            1
        } else {
            depth - 1
        }),
{
    if depth <= 2 {
        1
    } else {
        depth - 1
    }
}

/// What one draw of the read head must do with its floating-point state.
#[derive(Clone, Copy, Debug, PartialEq, Eq)]
pub struct HeadStep {
    /// Reset the Free age to `anchor_age(loop_len)` before advancing it.
    pub seed_anchor: bool,
    /// How far the write cursor moved since the previous Free frame (0 in
    /// Confined mode and on the first Free frame).
    pub dr: u64,
}

/// The read head's integer state across draws.
#[derive(Clone, Copy, Debug, PartialEq, Eq)]
pub struct ReadHead {
    /// Loop length the age was last seeded for.
    pub seeded_len: u32,
    /// Mode of the previous draw (`None` before the first).
    pub last_mode: Option<LoopMode>,
    /// Write cursor seen on the previous Free draw.
    pub prev_record_index: u64,
    /// Whether `prev_record_index` holds a reading.
    pub have_prev: bool,
}

/// Whether a draw in `mode` with window `loop_len` re-anchors the Free age.
pub open spec fn reseeds_anchor(head: ReadHead, mode: LoopMode, loop_len: u32) -> bool {
    mode is Free && (!(head.last_mode == Some(LoopMode::Free)) || head.seeded_len != loop_len)
}

/// The cursor movement a Free draw observes.
pub open spec fn observed_dr(head: ReadHead, record_index: u64) -> int {
    if !head.have_prev || record_index < head.prev_record_index {
        0
    } else {
        record_index - head.prev_record_index
    }
}

/// The read head after a draw.
pub open spec fn stepped(head: ReadHead, mode: LoopMode, loop_len: u32, record_index: u64) -> ReadHead {
    match mode {
        LoopMode::Free => ReadHead {
            seeded_len: loop_len,
            last_mode: Some(mode),
            prev_record_index: record_index,
            have_prev: true,
        },
        LoopMode::Confined => ReadHead { seeded_len: loop_len, last_mode: Some(mode), ..head },
    }
}

impl ReadHead {
    /// A head that has never drawn.
    pub fn new() -> (h: Self)
        ensures
            h.seeded_len == 0,
            h.last_mode is None,
            !h.have_prev,
            h.prev_record_index == 0,
    {
        ReadHead { seeded_len: 0, last_mode: None, prev_record_index: 0, have_prev: false }
    }

    /// One draw in `mode` over a `loop_len`-frame window with the write cursor
    /// at `record_index`. Free re-anchors on entry and on a length change, and
    /// observes the cursor movement `record_index - previous` (saturating at 0);
    /// Confined keeps the Free cursor reading untouched.
    pub fn step(&mut self, mode: LoopMode, loop_len: u32, record_index: u64) -> (s: HeadStep)
        ensures
            *final(self) == stepped(*old(self), mode, loop_len, record_index),
            s.seed_anchor == reseeds_anchor(*old(self), mode, loop_len),
            s.dr == (match mode {
                LoopMode::Free => observed_dr(*old(self), record_index),
                LoopMode::Confined => 0,
            }),
            // Free re-anchors exactly on entry or on a window change.
            (mode is Free && (!(old(self).last_mode == Some(LoopMode::Free)) || old(self).seeded_len
                != loop_len)) == s.seed_anchor,
            // The observed movement is the cursor advance since the last Free draw
            // (0 on the first one, and 0 when the cursor went back).
            mode is Free && old(self).have_prev && record_index >= old(self).prev_record_index
                ==> s.dr == record_index - old(self).prev_record_index,
            mode is Free && (!old(self).have_prev || record_index < old(self).prev_record_index)
                ==> s.dr == 0,
            mode is Confined ==> s.dr == 0 && final(self).prev_record_index == old(self).prev_record_index
                && final(self).have_prev == old(self).have_prev,
            mode is Free ==> final(self).prev_record_index == record_index && final(self).have_prev,
            final(self).seeded_len == loop_len && final(self).last_mode == Some(mode),
    {
        let is_free = match mode {
            LoopMode::Free => true,
            LoopMode::Confined => false,
        };
        let was_free = match self.last_mode {
            Some(LoopMode::Free) => true,
            _ => false,
        };
        let seed_anchor = is_free && (!was_free || self.seeded_len != loop_len);
        self.seeded_len = loop_len;
        self.last_mode = Some(mode);
        let mut dr: u64 = 0;
        if is_free {
            if !self.have_prev {
                self.prev_record_index = record_index;
                self.have_prev = true;
            }
            dr = record_index.saturating_sub(self.prev_record_index);
            self.prev_record_index = record_index;
        }
        HeadStep { seed_anchor, dr }
    }
}

/// Staying in Free with the same window never re-anchors, so the age keeps
/// its place (a constant tap while recording at rate 1).
pub proof fn lemma_steady_free_keeps_age(head: ReadHead, loop_len: u32, r1: u64)
    ensures
        !reseeds_anchor(stepped(head, LoopMode::Free, loop_len, r1), LoopMode::Free, loop_len),
{
}

/// Entering Free, or changing the window while in it, re-anchors.
pub proof fn lemma_free_entry_reanchors(head: ReadHead, loop_len: u32)
    requires
        !(head.last_mode == Some(LoopMode::Free)) || head.seeded_len != loop_len,
    ensures
        reseeds_anchor(head, LoopMode::Free, loop_len),
{
}

/// Freeze is implicit: while the Write is frozen the cursor does not move, so
/// the next Free draw observes `dr == 0`; one recorded frame observes 1.
pub proof fn lemma_frozen_cursor_observes_zero(head: ReadHead, loop_len: u32, r: u64)
    ensures
        observed_dr(stepped(head, LoopMode::Free, loop_len, r), r) == 0,
        r < u64::MAX ==> observed_dr(stepped(head, LoopMode::Free, loop_len, r), (r + 1) as u64)
            == 1,
{
}

} // verus!
