//! A Poseidon permutation and sponge gadget for arithmetic circuits.
//!
//! The library states the round formulas once, as spec functions, and
//! derives both sides of the gadget from them: the polynomial identities a
//! circuit registers per row, and the witness values that fill the rows.
//! `config` validates the setup parameters, `field` holds the prime-field
//! words, `perm` runs the permutation row by row, and `sponge` absorbs
//! padded input blocks and projects output words.

use vstd::prelude::*;

pub mod config;
pub mod field;
pub mod perm;
pub mod sponge;

verus! {

/// The set of state widths this gadget supports.
pub open spec fn is_supported_width(w: usize) -> bool {
    w == 2 || w == 3 || w == 4 || w == 8 || w == 12 || w == 16 || w == 20 || w == 24
}

/// Reports whether `w` is one of the supported state widths.
pub fn supported_width(w: usize) -> (r: bool)
    ensures
        r == is_supported_width(w),
{
    w == 2 || w == 3 || w == 4 || w == 8 || w == 12 || w == 16 || w == 20 || w == 24
}

} // verus!
