//! Receive-pipe identifiers.
//!
//! The device can receive on up to six independent data channels; a
//! `DataPipe` names one of them by its index, an integer from 0 to 5.

use vstd::prelude::*;

verus! {

/// Number of receive pipes the device offers; valid indices are below this.
pub const PIPE_COUNT: u8 = 6;

/// Identifier of one receive pipe, an index from 0 to 5.
///
/// The status decoder produces these as the output of receive-pipe decoding;
/// the index is fixed at construction.
#[derive(Debug, Clone, Copy, PartialEq, Eq, Structural)]
pub struct DataPipe {
    index: u8,
}

impl View for DataPipe {
    type V = u8;

    closed spec fn view(&self) -> u8 {
        self.index
    }
}

#[verifier::type_invariant]
spec fn pipe_index_in_range(p: DataPipe) -> bool {
    p.index < PIPE_COUNT
}

impl DataPipe {
    /// Wrap a pipe index. Only indices 0 to 5 name a pipe.
    pub fn new(index: u8) -> (r: Self)
        requires
            index < PIPE_COUNT,
        ensures
            r@ == index,
    {
        DataPipe { index }
    }

    /// The pipe's index, always in range.
    pub fn pipe(&self) -> (r: u8)
        ensures
            r == self@,
            r < PIPE_COUNT,
    {
        proof {
            use_type_invariant(self);
        }
        self.index
    }
}

} // verus!
