//! Bit-level helpers shared by the register model: a single-bit view of a
//! 32-bit register word and the lemmas that relate it to the word operations
//! the executable code performs.

use vstd::prelude::*;

verus! {

/// True when bit `i` of `w` is set. The status vectors and the control
/// register are read through this, one flag per bit.
pub open spec fn bit(w: u32, i: u32) -> bool {
    (w >> i) & 1 == 1
}

/// Read bit `i` of `w`.
pub fn bit_get(w: u32, i: u32) -> (b: bool)
    requires
        i < 32,
    ensures
        b == bit(w, i),
{
    (w >> i) & 1 == 1
}

/// The zero word has no bit set.
pub proof fn lemma_zero_bits()
    by (bit_vector)
    ensures
        forall|j: u32| j < 32 ==> !(#[trigger] bit(0u32, j)),
{
}

/// Setting bit `k` of `w` sets exactly that bit and leaves every other bit
/// as it was.
pub proof fn lemma_set_bit(w: u32, k: u32)
    by (bit_vector)
    requires
        k < 32,
    ensures
        bit(w | (1u32 << k), k),
        forall|j: u32| j < 32 && j != k ==> #[trigger] bit(w | (1u32 << k), j) == bit(w, j),
{
}

} // verus!
