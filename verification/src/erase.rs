//! Overwriting a buffer with zeros.

use vstd::prelude::*;

verus! {

/// The sequence of `n` zero bytes: what a wiped buffer of that length holds.
pub open spec fn zeros(n: nat) -> Seq<u8> {
    Seq::new(n, |i: int| 0u8)
}

/// Shows `buf` to `std::hint::black_box`, which asks the compiler to assume
/// that the bytes are read there, so that the stores made before the call are
/// not removed as dead. The buffer is only lent, and nothing is claimed of the
/// call: std documents the hint as best effort.
#[verifier::external_body]
fn observe<const LENGTH: usize>(buf: &[u8; LENGTH])
    opens_invariants none
    no_unwind
{
    std::hint::black_box(buf);
}

/// Overwrites every byte of `buf` with zero, and then shows the buffer to the
/// optimizer so that the writes are kept even where nothing reads `buf` again.
///
/// This is the routine that a [`crate::Secret`] runs on its own storage when
/// it is dropped.
pub fn wipe<const LENGTH: usize>(buf: &mut [u8; LENGTH])
    ensures
        final(buf)@ == zeros(LENGTH as nat),
    opens_invariants none
    no_unwind
{
    let mut i: usize = 0;
    while i < LENGTH
        invariant
            i <= LENGTH,
            forall|j: int| 0 <= j < i ==> buf@[j] == 0u8,
        decreases LENGTH - i,
    {
        buf[i] = 0;
        i += 1;
    }
    assert(buf@ =~= zeros(LENGTH as nat));
    observe(buf);
}

} // verus!
