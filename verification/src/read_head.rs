//! The integer side of the varispeed read head: which ring layers the four
//! Catmull-Rom taps fetch.
//!
//! A read at `age` (frames behind the write cursor `record_index`) fetches the
//! frames at ages `age0 - 1, age0, age0 + 1, age0 + 2` (the outer three wrapped
//! into the loop window `[0, len)`), where `age0` is the whole part of the
//! wrapped age; the frame at age `a` lives in layer `(record_index - a) mod depth`.
//! The fractional weight and the floating-point age itself are the caller's.

use vstd::prelude::*;
use vstd::arithmetic::div_mod::*;

verus! {

/// The four ring layers a cubic read fetches.
#[derive(Clone, Copy, Debug, PartialEq, Eq)]
pub struct Taps {
    pub prev: u32,
    pub layer0: u32,
    pub layer1: u32,
    pub next: u32,
}

/// `max(x, 1)`.
pub open spec fn at_least_one(x: int) -> int {
    if x < 1 {
        1
    } else {
        x
    }
}

/// The ring layer holding the frame `age` frames behind `record_index`.
pub open spec fn age_layer(record_index: int, age: int, depth: int) -> int {
    (record_index - age) % at_least_one(depth)
}

/// `(r - a) mod d` computed without leaving `u64`.
fn sub_mod(r: u64, a: u64, d: u64) -> (m: u64)
    requires
        0 < d <= u32::MAX + 1,
    ensures
        m == (r - a) % (d as int),
        m < d,
{
    proof {
        lemma_sub_mod_noop(r as int, a as int, d as int);
        lemma_mod_add_multiples_vanish((r % d) - (a % d), d as int);
        lemma_mod_bound(r as int, d as int);
        lemma_mod_bound(a as int, d as int);
        assert(d + ((r % d) - (a % d)) == (r % d) + d - (a % d));
    }
    ((r % d) + d - (a % d)) % d
}

/// Adding the age back to the layer of the frame that age behind the cursor
/// gives the cursor's own layer: `((r - a) mod d + a) mod d == r mod d`.
proof fn lemma_layer_plus_age(r: int, a: int, d: int)
    requires
        d > 0,
    ensures
        (((r - a) % d) + a) % d == r % d,
{
    lemma_add_mod_noop_right((r - a) % d, a, d);
    lemma_add_mod_noop(r - a, a, d);
    lemma_mod_twice(r - a, d);
    assert(r - a + a == r);
}

/// `(a - 1) mod m == (a + m - 1) mod m`.
proof fn lemma_minus_one_wraps(a: int, m: int)
    requires
        m > 0,
    ensures
        (a - 1) % m == (a + m - 1) % m,
{
    lemma_mod_add_multiples_vanish(a - 1, m);
    assert(m + (a - 1) == a + m - 1);
}

/// `(r + k) mod d` for a small `k`, without overflow.
fn add_mod(r: u64, k: u64, d: u64) -> (m: u64)
    requires
        0 < d <= u32::MAX + 1,
        k <= 2,
    ensures
        m == (r + k) % (d as int),
        m < d,
{
    proof {
        lemma_add_mod_noop_right(k as int, r as int, d as int);
        lemma_mod_bound(r as int, d as int);
    }
    ((r % d) + k) % d
}

/// The age a Free-mode read parks at for a `len`-frame loop: `max(len, 1) - 1`,
/// the top of the `[0, len)` window, so content recirculates every `len` frames.
pub fn anchor_age(len: u32) -> (a: u32)
    ensures
        a == at_least_one(len as int) - 1,
        len >= 1 ==> a == len - 1,
        len == 0 ==> a == 0,
{
    if len < 1 {
        0
    } else {
        len - 1
    }
}

/// Taps for a read `age0` (whole frames, already wrapped) behind the write
/// cursor, in a `len`-frame window of a `depth`-layer ring: the frames at ages
/// `(age0 - 1) mod len`, `age0`, `(age0 + 1) mod len`, `(age0 + 2) mod len`.
/// `len` and `depth` are taken as at least 1.
pub fn sample_age_taps(record_index: u64, age0: u64, len: u32, depth: u32) -> (t: Taps)
    ensures
        t.prev == age_layer(
            record_index as int,
            (age0 - 1) % at_least_one(len as int),
            depth as int,
        ),
        t.layer0 == age_layer(record_index as int, age0 as int, depth as int),
        t.layer1 == age_layer(
            record_index as int,
            (age0 + 1) % at_least_one(len as int),
            depth as int,
        ),
        t.next == age_layer(
            record_index as int,
            (age0 + 2) % at_least_one(len as int),
            depth as int,
        ),
        // Each tap is a layer below the ring depth, and the frame `a` frames behind
        // the cursor lives in layer `(record_index - a) mod depth`: adding the
        // tap's age back gives the cursor's layer.
        depth >= 1 ==> t.prev < depth && t.layer0 < depth && t.layer1 < depth && t.next < depth,
        depth >= 1 ==> (t.layer0 + age0) % (depth as int) == (record_index as int) % (depth as int),
        depth >= 1 && len >= 1 ==> (t.layer1 + (age0 + 1) % (len as int)) % (depth as int)
            == (record_index as int) % (depth as int),
        depth >= 1 && len >= 1 ==> (t.next + (age0 + 2) % (len as int)) % (depth as int)
            == (record_index as int) % (depth as int),
        depth >= 1 && len >= 1 ==> (t.prev + (age0 + len - 1) % (len as int)) % (depth as int)
            == (record_index as int) % (depth as int),
{
    let l: u64 = if len < 1 { 1 } else { len as u64 };
    let d: u64 = if depth < 1 { 1 } else { depth as u64 };
    let age_prev: u64 = sub_mod(age0, 1, l);
    let age1: u64 = add_mod(age0, 1, l);
    let age_next: u64 = add_mod(age0, 2, l);
    let prev: u64 = sub_mod(record_index, age_prev, d);
    let layer0: u64 = sub_mod(record_index, age0, d);
    let layer1: u64 = sub_mod(record_index, age1, d);
    let next: u64 = sub_mod(record_index, age_next, d);
    proof {
        lemma_layer_plus_age(record_index as int, age0 as int, d as int);
        lemma_layer_plus_age(record_index as int, age1 as int, d as int);
        lemma_layer_plus_age(record_index as int, age_next as int, d as int);
        lemma_layer_plus_age(record_index as int, age_prev as int, d as int);
        lemma_minus_one_wraps(age0 as int, l as int);
        assert(age0 + l - 1 == age0 + len - 1 || len < 1);
    }
    Taps { prev: prev as u32, layer0: layer0 as u32, layer1: layer1 as u32, next: next as u32 }
}

/// The slot `(position + k) mod len`, then folded into the ring (`mod depth`).
pub open spec fn window_slot(position: int, k: int, len: int, depth: int) -> int {
    ((position + k) % at_least_one(len)) % at_least_one(depth)
}

/// Taps for a Confine-mode read at whole position `i0` (the floor of the wrapped
/// play position) in the fixed window `[0, len)` of a `depth`-layer ring: slots
/// `i0 - 1, i0, i0 + 1, i0 + 2`, each wrapped into the window, so the cubic
/// never reads outside it.
pub fn sample_confined_taps(i0: u64, len: u32, depth: u32) -> (t: Taps)
    ensures
        t.prev == window_slot(i0 as int, -1, len as int, depth as int),
        t.layer0 == window_slot(i0 as int, 0, len as int, depth as int),
        t.layer1 == window_slot(i0 as int, 1, len as int, depth as int),
        t.next == window_slot(i0 as int, 2, len as int, depth as int),
        len <= depth ==> t.prev < at_least_one(len as int) && t.layer0 < at_least_one(len as int)
            && t.layer1 < at_least_one(len as int) && t.next < at_least_one(len as int),
        1 <= len <= depth ==> t.layer0 == (i0 as int) % (len as int) && t.layer1 == (i0 + 1) % (len as int)
            && t.next == (i0 + 2) % (len as int) && t.prev == (i0 + len - 1) % (len as int),
{
    let l: u64 = if len < 1 { 1 } else { len as u64 };
    let d: u64 = if depth < 1 { 1 } else { depth as u64 };
    let s_prev: u64 = sub_mod(i0, 1, l);
    let s0: u64 = add_mod(i0, 0, l);
    let s1: u64 = add_mod(i0, 1, l);
    let s2: u64 = add_mod(i0, 2, l);
    proof {
        assert(i0 + 0 == i0);
        assert(i0 - 1 == i0 + (-1));
        lemma_minus_one_wraps(i0 as int, l as int);
        if len <= depth {
            lemma_small_mod(s_prev as nat, d as nat);
            lemma_small_mod(s0 as nat, d as nat);
            lemma_small_mod(s1 as nat, d as nat);
            lemma_small_mod(s2 as nat, d as nat);
        }
        lemma_mod_bound(s_prev as int, d as int);
        lemma_mod_bound(s0 as int, d as int);
        lemma_mod_bound(s1 as int, d as int);
        lemma_mod_bound(s2 as int, d as int);
    }
    Taps {
        prev: (s_prev % d) as u32,
        layer0: (s0 % d) as u32,
        layer1: (s1 % d) as u32,
        next: (s2 % d) as u32,
    }
}

/// The slot the confined play head sits on (the slot the Write records back
/// into): `position mod max(len, 1)`, where `position` is the floor of the
/// play position.
pub fn confined_slot(position: u32, len: u32) -> (s: u32)
    ensures
        s == (position as int) % at_least_one(len as int),
        s < at_least_one(len as int),
        len >= 1 ==> s == position % len,
        len == 0 ==> s == 0,
{
    let l: u32 = if len < 1 { 1 } else { len };
    position % l
}

/// At the anchor age the read fetches the oldest frame of the window and its
/// interpolation partner wraps to the newest frame (the seam).
pub proof fn lemma_anchor_reads_oldest_then_newest(record_index: int, len: int, depth: int)
    requires
        len >= 1,
        depth >= 1,
    ensures
        age_layer(record_index, ((len - 1) + 1) % len, depth) == age_layer(record_index, 0, depth),
{
    lemma_mod_self_0(len);
}

/// Capacity: with a window shorter than the ring (`len < depth`), the read at
/// the anchor age never lands on the layer the Write fills next,
/// `(record_index + 1) mod depth`.
pub proof fn lemma_anchor_read_never_aliases_next_write(record_index: int, len: int, depth: int)
    requires
        1 <= len < depth,
    ensures
        age_layer(record_index, len - 1, depth) != (record_index + 1) % depth,
{
    let a: int = record_index - (len - 1);
    let b: int = record_index + 1;
    lemma_mod_equivalence(b, a, depth);
    lemma_small_mod((b - a) as nat, depth as nat);
}

/// The four age taps are consecutive ages: each tap is one frame older than
/// the one before it (mod the window), so the layers step back one at a time.
pub proof fn lemma_age_taps_are_consecutive(age0: int, len: int)
    requires
        len >= 1,
        0 <= age0 < len,
    ensures
        ((age0 - 1) % len + 1) % len == age0,
        (age0 + 2) % len == ((age0 + 1) % len + 1) % len,
{
    lemma_add_mod_noop_right(1, age0 - 1, len);
    lemma_small_mod(age0 as nat, len as nat);
    lemma_add_mod_noop_right(1, age0 + 1, len);
}

} // verus!
