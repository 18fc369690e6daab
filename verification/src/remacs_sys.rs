//! Parameters of the runtime's value encoding.
//!
//! Every number that the encoding depends on is named here and nowhere else.
//! They describe a 64-bit runtime that keeps its type tag in the low bits of
//! the word, and they have to agree with the runtime that the values are
//! exchanged with.

use vstd::prelude::*;

verus! {

/// A signed integer wide enough to hold a tagged value.
pub type EmacsInt = i64;

/// The unsigned counterpart of `EmacsInt`; addresses are words of this type.
pub type EmacsUint = u64;

/// The largest `EmacsInt`.
pub const EMACS_INT_MAX: EmacsInt = 0x7fff_ffff_ffff_ffff;

/// Number of low bits of a word that hold the type tag.
pub const GCTYPEBITS: EmacsInt = 3;

/// Number of tag bits that tell an immediate integer from the other types.
pub const INTTYPEBITS: EmacsInt = GCTYPEBITS - 1;

/// Distance between two addresses that leave the tag bits free.
pub const GCALIGNMENT: EmacsInt = 8;

/// Mask that keeps the payload of a word and clears its tag bits.
pub const VALMASK: EmacsInt = -8;

/// The word of the `nil` singleton.
#[allow(non_upper_case_globals)]
pub const Qnil: EmacsInt = 0;

/// The word of the `t` singleton: a symbol, so its tag bits are zero.
#[allow(non_upper_case_globals)]
pub const Qt: EmacsInt = 0x30;

/// The parameters agree with each other: an aligned address leaves
/// `GCTYPEBITS` bits free, the mask clears exactly those bits, and the two
/// singletons are different words without tag bits.
pub proof fn lemma_parameters_agree()
    ensures
        GCALIGNMENT == 1i64 << GCTYPEBITS,
        VALMASK == -GCALIGNMENT,
        INTTYPEBITS == GCTYPEBITS - 1,
        Qnil != Qt,
        Qnil & VALMASK == Qnil,
        Qt & VALMASK == Qt,
{
    assert(GCALIGNMENT == 1i64 << GCTYPEBITS) by (bit_vector);
    assert(Qnil & VALMASK == Qnil) by (bit_vector);
    assert(Qt & VALMASK == Qt) by (bit_vector);
}

} // verus!
