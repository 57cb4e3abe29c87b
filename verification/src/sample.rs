//! Audio samples as the verified code sees them.

use vstd::prelude::*;

verus! {

/// One amplitude value, carried as the bit pattern of a single-precision
/// float. The data path moves samples and never does arithmetic on them, so
/// the bits are all it needs; callers convert at the edge.
pub type Sample = u32;

/// The bit pattern of the amplitude zero.
pub const SILENCE: Sample = 0;

/// A run of `n` silent samples.
pub open spec fn silence(n: nat) -> Seq<Sample> {
    Seq::new(n, |i: int| SILENCE)
}

} // verus!
