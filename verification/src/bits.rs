//! Facts about single bits of a 64-bit word, shared by the bitmap and the
//! page-table code.

use vstd::prelude::*;

verus! {

/// Whether bit `b` of `w` is set.
pub open spec fn word_bit(w: u64, b: u64) -> bool {
    w & (1u64 << b) != 0
}

/// Setting bit `b` changes that bit and no other.
pub proof fn lemma_set_bit(w: u64, b: u64)
    by (bit_vector)
    requires
        b < 64,
    ensures
        forall|i: u64|
            i < 64 ==> (#[trigger] word_bit(w | (1u64 << b), i) == (i == b || word_bit(w, i))),
{
}

/// Clearing bit `b` changes that bit and no other.
pub proof fn lemma_clear_bit(w: u64, b: u64)
    by (bit_vector)
    requires
        b < 64,
    ensures
        forall|i: u64|
            i < 64 ==> (#[trigger] word_bit(w & !(1u64 << b), i) == (i != b && word_bit(w, i))),
{
}

/// The all-ones word has every bit set, the zero word has none.
pub proof fn lemma_constant_words()
    by (bit_vector)
    ensures
        forall|i: u64| i < 64 ==> #[trigger] word_bit(0xFFFF_FFFF_FFFF_FFFFu64, i),
        forall|i: u64| i < 64 ==> !#[trigger] word_bit(0u64, i),
{
}

} // verus!
