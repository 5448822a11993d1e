//! The primary status register.
//!
//! The device reports transmit/receive activity in one byte. Bit 7 signals an
//! invalid read when set; bits 6, 5 and 4 are the data-ready, data-sent and
//! retries-exhausted flags; bits 3..1 encode which receive pipe has data
//! pending; bit 0 reports a full transmission queue.

use vstd::prelude::*;
use vstd::pervasive::unreached;
use vstd::std_specs::convert::FromSpec;
use crate::bits::bit_set;
use crate::pipe::{DataPipe, PIPE_COUNT};

verus! {

/// Bit 7: the register could not be read back correctly when set.
pub const INVALID_BIT: u8 = 7;

/// Bit 6: data is ready to be read.
pub const DATA_READY_BIT: u8 = 6;

/// Bit 5: data has been sent.
pub const DATA_SENT_BIT: u8 = 5;

/// Bit 4: the maximum number of transmission retries has been reached.
pub const MAX_RETRIES_BIT: u8 = 4;

/// Bit 0: the transmission queue is full.
pub const TX_FULL_BIT: u8 = 0;

/// The receive-pipe field sits at bits 3..1.
pub const PIPE_FIELD_SHIFT: u8 = 1;

/// The receive-pipe field is three bits wide.
pub const PIPE_FIELD_MASK: u8 = 0b111;

/// Receive-pipe encoding the hardware protocol declares impossible.
pub const PIPE_FIELD_RESERVED: u8 = 6;

/// Receive-pipe encoding meaning that no pipe has data pending.
pub const PIPE_FIELD_EMPTY: u8 = 7;

/// Byte with every flag bit (data ready, data sent, retries reached) set.
pub const ALL_FLAG_BITS: u8 = 0b0111_0000;

/// The three-bit receive-pipe field of a status byte.
pub open spec fn spec_pipe_field(b: u8) -> u8 {
    (b >> PIPE_FIELD_SHIFT) & PIPE_FIELD_MASK
}

/// Wrapper for the status value returned from the device; stores the byte
/// unchanged and exposes its fields through query methods.
#[derive(Copy, Clone, Eq, PartialEq, Structural)]
pub struct Status {
    raw: u8,
}

impl View for Status {
    type V = u8;

    closed spec fn view(&self) -> u8 {
        self.raw
    }
}

impl Status {
    /// A status read is trustworthy exactly when its most significant bit is
    /// clear.
    pub open spec fn spec_is_valid(self) -> bool {
        !bit_set(self@, INVALID_BIT)
    }

    /// Status value with all the flag bits turned on.
    pub fn flags() -> (r: Self)
        ensures
            r@ == ALL_FLAG_BITS,
    {
        Status { raw: ALL_FLAG_BITS }
    }

    /// The raw byte represented by this status, unchanged since construction.
    pub fn value(&self) -> (r: u8)
        ensures
            r == self@,
    {
        self.raw
    }

    /// Whether the status is valid; when this is false the other fields are
    /// undefined and must not be trusted.
    pub fn is_valid(&self) -> (r: bool)
        ensures
            r == self.spec_is_valid(),
    {
        (self.raw >> INVALID_BIT) & 1 == 0
    }

    /// Whether there is data ready to be read.
    pub fn data_ready(&self) -> (r: bool)
        ensures
            r == bit_set(self@, DATA_READY_BIT),
    {
        (self.raw >> DATA_READY_BIT) & 1 != 0
    }

    /// Whether data has been sent.
    pub fn data_sent(&self) -> (r: bool)
        ensures
            r == bit_set(self@, DATA_SENT_BIT),
    {
        (self.raw >> DATA_SENT_BIT) & 1 != 0
    }

    /// Whether the maximum number of retries has been reached. Meaningful
    /// only while automatic acknowledgement is enabled, a fact the caller
    /// must know from its configuration state.
    pub fn reached_max_retries(&self) -> (r: bool)
        ensures
            r == bit_set(self@, MAX_RETRIES_BIT),
    {
        (self.raw >> MAX_RETRIES_BIT) & 1 != 0
    }

    /// The receive pipe holding the payload available for reading, or `None`
    /// if the receive queue is empty.
    ///
    /// The reserved pipe-field encoding is a hardware state declared
    /// impossible: observing it means the read was corrupted upstream, so the
    /// precondition rules it out rather than mapping it to a recoverable
    /// value.
    pub fn data_pipe_available(&self) -> (r: Option<DataPipe>)
        requires
            spec_pipe_field(self@) != PIPE_FIELD_RESERVED,
        ensures
            (r is None) == (spec_pipe_field(self@) == PIPE_FIELD_EMPTY),
            r matches Some(p) ==> p@ == spec_pipe_field(self@),
    {
        let raw: u8 = self.raw;
        let field: u8 = (raw >> PIPE_FIELD_SHIFT) & PIPE_FIELD_MASK;
        proof {
            assert((raw >> PIPE_FIELD_SHIFT) & PIPE_FIELD_MASK < 8) by (bit_vector);
        }
        if field < PIPE_COUNT {
            Some(DataPipe::new(field))
        } else if field == PIPE_FIELD_EMPTY {
            None
        } else {
            // only the reserved encoding remains, and the precondition rules it out
            unreached()
        }
    }

    /// Whether the transmission queue is full.
    pub fn tx_full(&self) -> (r: bool)
        ensures
            r == bit_set(self@, TX_FULL_BIT),
    {
        (self.raw >> TX_FULL_BIT) & 1 != 0
    }
}

/// The five facts a valid status byte reports, decoded once so that every
/// diagnostic rendering backend works from the same field set instead of
/// re-deriving it.
#[derive(Debug, Clone, Copy, PartialEq, Eq)]
pub struct StatusReport {
    /// Data is ready to be read.
    pub data_ready: bool,
    /// Data has been sent.
    pub data_sent: bool,
    /// The maximum number of retries has been reached.
    pub reached_max_retries: bool,
    /// The pipe with a payload pending, or `None` when the receive queue is
    /// empty.
    pub available_pipe: Option<DataPipe>,
    /// The transmission queue is full.
    pub tx_full: bool,
}

impl Status {
    /// Decode the status into its report, or `None` when the status is not
    /// valid and its fields therefore cannot be trusted. Renderers branch on
    /// the `Option` and so all treat an invalid status identically.
    pub fn report(&self) -> (r: Option<StatusReport>)
        requires
            self.spec_is_valid() ==> spec_pipe_field(self@) != PIPE_FIELD_RESERVED,
        ensures
            (r is Some) == self.spec_is_valid(),
            r matches Some(rep) ==> rep.data_ready == bit_set(self@, DATA_READY_BIT),
            r matches Some(rep) ==> rep.data_sent == bit_set(self@, DATA_SENT_BIT),
            r matches Some(rep) ==> rep.reached_max_retries == bit_set(self@, MAX_RETRIES_BIT),
            r matches Some(rep) ==> (rep.available_pipe is None) == (spec_pipe_field(self@)
                == PIPE_FIELD_EMPTY),
            r matches Some(rep) ==> (rep.available_pipe matches Some(p) ==> p@ == spec_pipe_field(
                self@,
            )),
            r matches Some(rep) ==> rep.tx_full == bit_set(self@, TX_FULL_BIT),
    {
        if self.is_valid() {
            Some(
                StatusReport {
                    data_ready: self.data_ready(),
                    data_sent: self.data_sent(),
                    reached_max_retries: self.reached_max_retries(),
                    available_pipe: self.data_pipe_available(),
                    tx_full: self.tx_full(),
                },
            )
        } else {
            None
        }
    }
}

impl From<u8> for Status {
    /// Wraps the byte unchanged; total for every byte.
    fn from(t: u8) -> (r: Self) {
        Status { raw: t }
    }
}

impl vstd::std_specs::convert::FromSpecImpl<u8> for Status {
    open spec fn obeys_from_spec() -> bool {
        true
    }

    closed spec fn from_spec(t: u8) -> Status {
        Status { raw: t }
    }
}

/// Law: constructing a status from any byte and reading the raw value back
/// returns that byte unchanged.
pub proof fn lemma_status_round_trip(b: u8)
    ensures
        <Status as FromSpec<u8>>::from_spec(b)@ == b,
{
}

/// Law: a byte with its most significant bit set never decodes to a valid
/// status.
pub proof fn lemma_msb_set_never_valid(b: u8)
    requires
        bit_set(b, INVALID_BIT),
    ensures
        !<Status as FromSpec<u8>>::from_spec(b).spec_is_valid(),
{
}

} // verus!
