//! Bit-level vocabulary shared by the register decoders.

use vstd::prelude::*;

verus! {

/// True when bit `i` (counted from the least significant end) of `b` is set.
pub open spec fn bit_set(b: u8, i: u8) -> bool
    recommends
        i < 8,
{
    (b >> i) & 1 != 0
}

} // verus!
