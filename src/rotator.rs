use vstd::prelude::*;

verus! {

/// Number of output lines, and the modulus of the shared line index.
pub const LINE_COUNT: u32 = 8;

/// Time between two advances of the shared line index.
pub const ROTATE_PERIOD_MS: u64 = 3000;

/// The shared line index after `ticks` advances from its initial value 0.
pub open spec fn index_after(ticks: nat) -> nat
    decreases ticks,
{
    if ticks == 0 {
        0
    } else {
        (index_after((ticks - 1) as nat) + 1) % 8
    }
}

/// The index that the rotator stores after reading `index`.
pub fn next_index(index: u32) -> (r: u32)
    requires
        index < u32::MAX,
    ensures
        r == (index + 1) % 8,
        r < LINE_COUNT,
{
    (index + 1) % LINE_COUNT
}

/// Starting from 0, the shared index stays within `0..8` and equals the
/// number of rotation ticks modulo 8.
pub proof fn lemma_index_after(ticks: nat)
    ensures
        index_after(ticks) < 8,
        index_after(ticks) == ticks % 8,
    decreases ticks,
{
    if ticks > 0 {
        lemma_index_after((ticks - 1) as nat);
    }
}

/// Each tick moves the index one step along `index_after`.
pub proof fn lemma_next_index_follows(ticks: nat, index: u32, r: u32)
    requires
        index as nat == index_after(ticks),
        r == (index + 1) % 8,
    ensures
        r as nat == index_after(ticks + 1),
{
}

} // verus!
