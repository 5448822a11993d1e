//! The FIFO status register.
//!
//! One byte reporting four independent full/empty flags for the transmit and
//! receive queues. The flags are not cross-checked against each other: the
//! decoder reports exactly what the device said, contradictory or not, and no
//! validity concept exists for this register.

use vstd::prelude::*;
use vstd::std_specs::convert::FromSpec;
use crate::bits::bit_set;

verus! {

/// Bit 5: the transmission queue is full.
pub const TX_FULL_BIT: u8 = 5;

/// Bit 4: the transmission queue is empty.
pub const TX_EMPTY_BIT: u8 = 4;

/// Bit 1: the receive queue is full.
pub const RX_FULL_BIT: u8 = 1;

/// Bit 0: the receive queue is empty.
pub const RX_EMPTY_BIT: u8 = 0;

/// Wrapper around the FIFO status byte; stores it unchanged and exposes the
/// four queue flags.
#[derive(Debug, Copy, Clone, Eq, PartialEq, Structural)]
pub struct FIFOStatus {
    raw: u8,
}

impl View for FIFOStatus {
    type V = u8;

    closed spec fn view(&self) -> u8 {
        self.raw
    }
}

impl FIFOStatus {
    /// Whether the transmission queue is full.
    pub fn tx_full(&self) -> (r: bool)
        ensures
            r == bit_set(self@, TX_FULL_BIT),
    {
        (self.raw >> TX_FULL_BIT) & 1 != 0
    }

    /// Whether the transmission queue is empty.
    pub fn tx_empty(&self) -> (r: bool)
        ensures
            r == bit_set(self@, TX_EMPTY_BIT),
    {
        (self.raw >> TX_EMPTY_BIT) & 1 != 0
    }

    /// Whether the receive queue is full.
    pub fn rx_full(&self) -> (r: bool)
        ensures
            r == bit_set(self@, RX_FULL_BIT),
    {
        (self.raw >> RX_FULL_BIT) & 1 != 0
    }

    /// Whether the receive queue is empty.
    pub fn rx_empty(&self) -> (r: bool)
        ensures
            r == bit_set(self@, RX_EMPTY_BIT),
    {
        (self.raw >> RX_EMPTY_BIT) & 1 != 0
    }
}

impl From<u8> for FIFOStatus {
    /// Wraps the byte unchanged; total for every byte.
    fn from(t: u8) -> (r: Self) {
        FIFOStatus { raw: t }
    }
}

impl vstd::std_specs::convert::FromSpecImpl<u8> for FIFOStatus {
    open spec fn obeys_from_spec() -> bool {
        true
    }

    closed spec fn from_spec(t: u8) -> FIFOStatus {
        FIFOStatus { raw: t }
    }
}

/// Law: constructing a FIFO status from any byte and reading the raw value
/// back returns that byte unchanged.
pub proof fn lemma_fifo_status_round_trip(b: u8)
    ensures
        <FIFOStatus as FromSpec<u8>>::from_spec(b)@ == b,
{
}

} // verus!
