//! The signed-frequency index map.
//!
//! The coefficient table stores the coefficient of angular frequency
//! `2*pi*m`, for signed `m` in `[-depth, depth]`, in a dense array of
//! `2*depth + 1` slots: frequency 0 at slot 0, frequency `m > 0` at slot
//! `2m - 1`, frequency `m < 0` at slot `2|m|`.  Extraction and
//! reconstruction both address the table through this bijection.

use vstd::prelude::*;

verus! {

/// The storage slot of signed frequency `m`.
pub open spec fn slot_of(m: int) -> int {
    if m >= 1 {
        2 * m - 1
    } else {
        2 * (-m)
    }
}

/// The signed frequency stored at slot `s`: odd slots hold the positive
/// frequencies, even slots the non-positive ones.
pub open spec fn freq_of(s: int) -> int {
    if s % 2 == 1 {
        (s + 1) / 2
    } else {
        -(s / 2)
    }
}

/// Storage slot of the signed frequency `n`.
///
/// The bound keeps the doubled magnitude within `i32`, the machine limit of
/// this signature; every frequency a table of representable size can hold
/// satisfies it.
pub fn index(n: i32) -> (s: usize)
    requires
        -1073741823 <= n <= 1073741823,
    ensures
        s == slot_of(n as int),
{
    if n >= 1 {
        2 * (n as usize) - 1
    } else {
        2 * ((-n) as usize)
    }
}

/// Signed frequency held at storage slot `n`; the exact inverse of `index`
/// on its range.
pub fn unindex(n: usize) -> (m: i32)
    requires
        n <= 2147483646,
    ensures
        m as int == freq_of(n as int),
{
    if n % 2 == 1 {
        ((n + 1) / 2) as i32
    } else {
        -((n / 2) as i32)
    }
}

/// The number of slots of a coefficient table of the given depth: one per
/// signed frequency in `[-depth, depth]`, so `2 * depth + 1` in all.
///
/// The bound keeps every frequency the table holds inside `index`'s
/// domain, and the slot count inside `usize`.
pub fn table_len(depth: usize) -> (n: usize)
    requires
        depth <= 1073741823,
    ensures
        n == 2 * depth + 1,
        forall|m: int| -(depth as int) <= m <= depth as int ==> 0 <= #[trigger] slot_of(m) < n,
{
    proof {
        lemma_slot_map_bijective(depth as int);
    }
    2 * depth + 1
}

/// Unindexing a slot recovers the signed frequency that was indexed:
/// `freq_of` is a left inverse of `slot_of` on every signed frequency.
pub proof fn lemma_freq_of_slot_of(m: int)
    ensures
        freq_of(slot_of(m)) == m,
{
    if m >= 1 {
        assert((2 * m - 1) % 2 == 1) by (nonlinear_arith);
        assert((2 * m) / 2 == m) by (nonlinear_arith);
    } else {
        assert((2 * (-m)) % 2 == 0) by (nonlinear_arith);
        assert((2 * (-m)) / 2 == -m) by (nonlinear_arith);
    }
}

/// Indexing the frequency found at a slot recovers the slot: `slot_of` is a
/// left inverse of `freq_of` on every slot.
pub proof fn lemma_slot_of_freq_of(s: int)
    requires
        0 <= s,
    ensures
        slot_of(freq_of(s)) == s,
{
    if s % 2 == 1 {
        assert(s == 2 * ((s + 1) / 2) - 1);
    } else {
        assert(s == 2 * (s / 2));
    }
}

/// Slot 0 always holds frequency 0, and the index map sends the signed
/// frequencies `-d..=d` exactly onto the `2d + 1` slots `0..=2d`, each
/// frequency to its own slot.  A coefficient table of depth `d` filled
/// through `index` therefore has one entry per signed frequency and no
/// unused slot.
pub proof fn lemma_slot_map_bijective(d: int)
    requires
        0 <= d,
    ensures
        slot_of(0) == 0,
        forall|s: int| 0 <= s ==> (#[trigger] freq_of(s) == 0 <==> s == 0),
        forall|m: int| -d <= m <= d ==> 0 <= #[trigger] slot_of(m) < 2 * d + 1,
        forall|m1: int, m2: int|
            -d <= m1 <= d && -d <= m2 <= d && #[trigger] slot_of(m1) == #[trigger] slot_of(m2)
                ==> m1 == m2,
        forall|s: int|
            0 <= s < 2 * d + 1 ==> -d <= #[trigger] freq_of(s) <= d && slot_of(freq_of(s)) == s,
{
    assert forall|m1: int, m2: int|
        -d <= m1 <= d && -d <= m2 <= d && #[trigger] slot_of(m1) == #[trigger] slot_of(m2)
        implies m1 == m2 by {
        lemma_freq_of_slot_of(m1);
        lemma_freq_of_slot_of(m2);
    }
    assert forall|s: int| 0 <= s < 2 * d + 1 implies -d <= #[trigger] freq_of(s) <= d
        && slot_of(freq_of(s)) == s by {
        lemma_slot_of_freq_of(s);
        if s % 2 == 1 {
            assert(s <= 2 * d - 1);
        }
    }
}

} // verus!
