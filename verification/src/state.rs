//! The packed task state word: seven flag bits below a reference counter.

use vstd::prelude::*;

verus! {

/// The task has been submitted to the executor and is not currently running.
pub const SCHEDULED: u64 = 1;

/// A worker has exclusive execution rights.
pub const RUNNING: u64 = 2;

/// The computation finished and produced an output.
pub const COMPLETED: u64 = 4;

/// Cancellation was requested or the output was taken.
pub const CLOSED: u64 = 8;

/// A live observer handle exists.
pub const HANDLE: u64 = 16;

/// An awaiter is registered in the awaiter slot.
pub const AWAITER: u64 = 32;

/// The awaiter slot is being modified.
pub const LOCKED: u64 = 64;

/// Every bit below the reference count.
pub const FLAGS: u64 = 127;

/// Adding this constant raises the reference count by one.
pub const REFERENCE: u64 = 128;

/// States above this bound have a saturated reference count.
pub const SATURATED: u64 = 0x7fff_ffff_ffff_ffff;

/// What a state word means: its flags and its reference count.
pub struct StateView {
    pub scheduled: bool,
    pub running: bool,
    pub completed: bool,
    pub closed: bool,
    pub handle: bool,
    pub awaiter: bool,
    pub locked: bool,
    pub refs: nat,
}

/// Decodes a state word.
pub open spec fn state_view(s: u64) -> StateView {
    StateView {
        scheduled: s & 1 != 0,
        running: s & 2 != 0,
        completed: s & 4 != 0,
        closed: s & 8 != 0,
        handle: s & 16 != 0,
        awaiter: s & 32 != 0,
        locked: s & 64 != 0,
        refs: (s >> 7) as nat,
    }
}

/// The largest reference count for which one more reference may be added.
pub open spec fn max_refs() -> nat {
    0xff_ffff_ffff_ffff
}

/// A task is never running and completed at once.
pub open spec fn consistent(v: StateView) -> bool {
    !(v.running && v.completed)
}

/// The state a task is born with: scheduled, observed by a handle, one reference.
pub open spec fn born() -> StateView {
    StateView {
        scheduled: true,
        running: false,
        completed: false,
        closed: false,
        handle: true,
        awaiter: false,
        locked: false,
        refs: 1,
    }
}

/// Setting one flag changes that flag and nothing else.
pub proof fn lemma_set_flag(s: u64, f: u64)
    by (bit_vector)
    requires
        f == 1 || f == 2 || f == 4 || f == 8 || f == 16 || f == 32 || f == 64,
    ensures
        ((s | f) & 1 != 0) == (s & 1 != 0 || f == 1),
        ((s | f) & 2 != 0) == (s & 2 != 0 || f == 2),
        ((s | f) & 4 != 0) == (s & 4 != 0 || f == 4),
        ((s | f) & 8 != 0) == (s & 8 != 0 || f == 8),
        ((s | f) & 16 != 0) == (s & 16 != 0 || f == 16),
        ((s | f) & 32 != 0) == (s & 32 != 0 || f == 32),
        ((s | f) & 64 != 0) == (s & 64 != 0 || f == 64),
        (s | f) >> 7 == s >> 7,
{
}

/// Clearing one flag changes that flag and nothing else.
pub proof fn lemma_clear_flag(s: u64, f: u64)
    by (bit_vector)
    requires
        f == 1 || f == 2 || f == 4 || f == 8 || f == 16 || f == 32 || f == 64,
    ensures
        ((s & !f) & 1 != 0) == (s & 1 != 0 && f != 1),
        ((s & !f) & 2 != 0) == (s & 2 != 0 && f != 2),
        ((s & !f) & 4 != 0) == (s & 4 != 0 && f != 4),
        ((s & !f) & 8 != 0) == (s & 8 != 0 && f != 8),
        ((s & !f) & 16 != 0) == (s & 16 != 0 && f != 16),
        ((s & !f) & 32 != 0) == (s & 32 != 0 && f != 32),
        ((s & !f) & 64 != 0) == (s & 64 != 0 && f != 64),
        (s & !f) >> 7 == s >> 7,
{
}

/// Adding one reference leaves every flag alone and raises the count by one.
pub proof fn lemma_add_reference(s: u64)
    by (bit_vector)
    requires
        s <= 0x7fff_ffff_ffff_ffff,
    ensures
        s + 128 <= 0xffff_ffff_ffff_ffff,
        ((s + 128) as u64 & 1 != 0) == (s & 1 != 0),
        ((s + 128) as u64 & 2 != 0) == (s & 2 != 0),
        ((s + 128) as u64 & 4 != 0) == (s & 4 != 0),
        ((s + 128) as u64 & 8 != 0) == (s & 8 != 0),
        ((s + 128) as u64 & 16 != 0) == (s & 16 != 0),
        ((s + 128) as u64 & 32 != 0) == (s & 32 != 0),
        ((s + 128) as u64 & 64 != 0) == (s & 64 != 0),
        (s + 128) as u64 >> 7 == (s >> 7) + 1,
{
}

/// Removing one reference leaves every flag alone and lowers the count by one.
pub proof fn lemma_sub_reference(s: u64)
    by (bit_vector)
    requires
        s >= 128,
    ensures
        ((s - 128) as u64 & 1 != 0) == (s & 1 != 0),
        ((s - 128) as u64 & 2 != 0) == (s & 2 != 0),
        ((s - 128) as u64 & 4 != 0) == (s & 4 != 0),
        ((s - 128) as u64 & 8 != 0) == (s & 8 != 0),
        ((s - 128) as u64 & 16 != 0) == (s & 16 != 0),
        ((s - 128) as u64 & 32 != 0) == (s & 32 != 0),
        ((s - 128) as u64 & 64 != 0) == (s & 64 != 0),
        (s - 128) as u64 >> 7 == (s >> 7) - 1,
{
}

/// The reference count is zero exactly when no bit above the flags is set,
/// and it is saturated exactly when the word exceeds the saturation bound.
pub proof fn lemma_count_bounds(s: u64)
    by (bit_vector)
    ensures
        (s >> 7 == 0) == (s & !127u64 == 0),
        (s >> 7 == 0) == (s < 128),
        (s > 0x7fff_ffff_ffff_ffffu64) == (s >> 7 > 0xff_ffff_ffff_ffffu64),
{
}

/// Two state words with the same meaning are the same word.
pub proof fn lemma_view_injective(a: u64, b: u64)
    requires
        state_view(a) == state_view(b),
    ensures
        a == b,
{
    assert(a == b) by (bit_vector)
        requires
            (a & 1 != 0) == (b & 1 != 0),
            (a & 2 != 0) == (b & 2 != 0),
            (a & 4 != 0) == (b & 4 != 0),
            (a & 8 != 0) == (b & 8 != 0),
            (a & 16 != 0) == (b & 16 != 0),
            (a & 32 != 0) == (b & 32 != 0),
            (a & 64 != 0) == (b & 64 != 0),
            a >> 7 == b >> 7,
    ;
}

/// The state word that every task starts from.
pub fn initial_state() -> (s: u64)
    ensures
        s == SCHEDULED | HANDLE | REFERENCE,
        state_view(s) == born(),
{
    let s: u64 = SCHEDULED | HANDLE | REFERENCE;
    proof {
        assert(1u64 | 16u64 | 128u64 == 145u64) by (bit_vector);
        lemma_literal_view(145);
    }
    s
}

/// Decodes the few literal words that the fixed transitions name.
pub proof fn lemma_literal_view(s: u64)
    by (bit_vector)
    requires
        s == 145 || s == 129 || s == 137,
    ensures
        (s & 1 != 0),
        !(s & 2 != 0),
        !(s & 4 != 0),
        (s & 8 != 0) == (s == 137),
        (s & 16 != 0) == (s == 145),
        !(s & 32 != 0),
        !(s & 64 != 0),
        s >> 7 == 1,
{
}

} // verus!
