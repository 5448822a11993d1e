//! The interrupt mask register.
//!
//! The device offers three interrupt-capable events, each on a fixed bit of
//! one configuration byte: transmission failed (bit 4), transmission
//! succeeded (bit 5) and data ready (bit 6). `Interrupts` accumulates a
//! subset of those sources to write to the device, and interprets a byte read
//! back from it. Whatever the construction path, the stored value only ever
//! holds bits at the three defined positions; bytes from hardware are
//! sanitized by masking, never rejected.

use vstd::prelude::*;
use vstd::std_specs::convert::FromSpec;

verus! {

/// Bit mask of the transmission-failed interrupt source.
pub const TRANSMISSION_FAIL_MASK: u8 = 0b0001_0000;

/// Bit mask of the transmission-succeeded interrupt source.
pub const TRANSMISSION_OK_MASK: u8 = 0b0010_0000;

/// Bit mask of the data-ready interrupt source.
pub const DATA_READY_MASK: u8 = 0b0100_0000;

/// Bit mask covering all three defined interrupt sources.
pub const ALL_INTERRUPTS_MASK: u8 = 0b0111_0000;

/// The interrupt-capable events of the device.
#[derive(Debug, Clone, Copy, PartialEq, Eq, Structural)]
pub enum InterruptKind {
    TransmissionFail,
    TransmissionOk,
    DataReady,
}

/// The bit each interrupt source occupies in the mask register.
pub open spec fn spec_mask(k: InterruptKind) -> u8 {
    match k {
        InterruptKind::TransmissionFail => TRANSMISSION_FAIL_MASK,
        InterruptKind::TransmissionOk => TRANSMISSION_OK_MASK,
        InterruptKind::DataReady => DATA_READY_MASK,
    }
}

impl InterruptKind {
    /// The bit mask of this interrupt source.
    pub fn mask(self) -> (r: u8)
        ensures
            r == spec_mask(self),
    {
        match self {
            InterruptKind::TransmissionFail => TRANSMISSION_FAIL_MASK,
            InterruptKind::TransmissionOk => TRANSMISSION_OK_MASK,
            InterruptKind::DataReady => DATA_READY_MASK,
        }
    }
}

/// An accumulating bitmask over the three interrupt sources, built fluently
/// from an empty mask or sanitized from a byte read back from the device.
pub struct Interrupts {
    raw: u8,
}

impl View for Interrupts {
    type V = u8;

    closed spec fn view(&self) -> u8 {
        self.raw
    }
}

#[verifier::type_invariant]
spec fn interrupts_wf(m: Interrupts) -> bool {
    m.raw & ALL_INTERRUPTS_MASK == m.raw
}

impl Interrupts {
    /// Whether the given source's bit is set in this mask, at the
    /// specification level.
    pub open spec fn spec_contains(self, k: InterruptKind) -> bool {
        self@ & spec_mask(k) != 0
    }

    /// The empty mask: no interrupt source enabled.
    pub fn new() -> (r: Self)
        ensures
            r@ == 0,
    {
        proof {
            assert(0u8 & ALL_INTERRUPTS_MASK == 0u8) by (bit_vector);
        }
        Interrupts { raw: 0 }
    }

    /// This mask with the transmission-failed source enabled, every other
    /// bit unchanged.
    pub fn transmission_fail(self) -> (r: Self)
        ensures
            r@ == self@ | TRANSMISSION_FAIL_MASK,
    {
        let raw: u8 = self.raw;
        proof {
            use_type_invariant(&self);
            assert((raw | TRANSMISSION_FAIL_MASK) & ALL_INTERRUPTS_MASK == (raw
                | TRANSMISSION_FAIL_MASK)) by (bit_vector)
                requires
                    raw & ALL_INTERRUPTS_MASK == raw,
            ;
        }
        Interrupts { raw: raw | TRANSMISSION_FAIL_MASK }
    }

    /// This mask with the transmission-succeeded source enabled, every other
    /// bit unchanged.
    pub fn transmission_ok(self) -> (r: Self)
        ensures
            r@ == self@ | TRANSMISSION_OK_MASK,
    {
        let raw: u8 = self.raw;
        proof {
            use_type_invariant(&self);
            assert((raw | TRANSMISSION_OK_MASK) & ALL_INTERRUPTS_MASK == (raw
                | TRANSMISSION_OK_MASK)) by (bit_vector)
                requires
                    raw & ALL_INTERRUPTS_MASK == raw,
            ;
        }
        Interrupts { raw: raw | TRANSMISSION_OK_MASK }
    }

    /// This mask with the data-ready source enabled, every other bit
    /// unchanged.
    pub fn data_ready(self) -> (r: Self)
        ensures
            r@ == self@ | DATA_READY_MASK,
    {
        let raw: u8 = self.raw;
        proof {
            use_type_invariant(&self);
            assert((raw | DATA_READY_MASK) & ALL_INTERRUPTS_MASK == (raw | DATA_READY_MASK))
                by (bit_vector)
                requires
                    raw & ALL_INTERRUPTS_MASK == raw,
            ;
        }
        Interrupts { raw: raw | DATA_READY_MASK }
    }

    /// The mask with exactly the three defined sources enabled.
    pub fn all() -> (r: Self)
        ensures
            r@ == ALL_INTERRUPTS_MASK,
    {
        proof {
            assert(ALL_INTERRUPTS_MASK & ALL_INTERRUPTS_MASK == ALL_INTERRUPTS_MASK)
                by (bit_vector);
        }
        Interrupts { raw: ALL_INTERRUPTS_MASK }
    }

    /// Whether the given source's bit is set in this mask.
    pub fn contains(&self, irq: InterruptKind) -> (r: bool)
        ensures
            r == self.spec_contains(irq),
    {
        self.raw & irq.mask() >= 1
    }

    /// The accumulated bitmask, as written to the device's interrupt
    /// configuration register; its bits never stray outside the three
    /// defined positions.
    pub fn value(&self) -> (r: u8)
        ensures
            r == self@,
            r & ALL_INTERRUPTS_MASK == r,
    {
        proof {
            use_type_invariant(self);
        }
        self.raw
    }
}

impl From<u8> for Interrupts {
    /// Masks the byte against the three defined positions, silently dropping
    /// any unknown or reserved bits read from hardware.
    fn from(t: u8) -> (r: Self) {
        proof {
            assert((t & ALL_INTERRUPTS_MASK) & ALL_INTERRUPTS_MASK == t & ALL_INTERRUPTS_MASK)
                by (bit_vector);
        }
        Interrupts { raw: t & ALL_INTERRUPTS_MASK }
    }
}

impl vstd::std_specs::convert::FromSpecImpl<u8> for Interrupts {
    open spec fn obeys_from_spec() -> bool {
        true
    }

    closed spec fn from_spec(t: u8) -> Interrupts {
        Interrupts { raw: t & ALL_INTERRUPTS_MASK }
    }
}

/// Law: constructing a mask from a byte keeps exactly the bits at the three
/// defined positions and drops every other bit.
pub proof fn lemma_from_raw_sanitizes(b: u8)
    ensures
        <Interrupts as FromSpec<u8>>::from_spec(b)@ == b & ALL_INTERRUPTS_MASK,
{
}

/// Law: enabling an interrupt source twice yields the same mask as enabling
/// it once, whatever the mask held before.
pub proof fn lemma_enable_idempotent(m: Interrupts, k: InterruptKind)
    ensures
        (m@ | spec_mask(k)) | spec_mask(k) == m@ | spec_mask(k),
{
    let raw = m@;
    let mask = spec_mask(k);
    assert((raw | mask) | mask == raw | mask) by (bit_vector);
}

/// Law: enabling an interrupt source makes the mask contain that source, and
/// leaves every other source contained exactly as before.
pub proof fn lemma_enable_sets_only_its_source(m: Interrupts, k: InterruptKind, j: InterruptKind)
    ensures
        (m@ | spec_mask(k)) & spec_mask(k) != 0,
        j != k ==> ((m@ | spec_mask(k)) & spec_mask(j) != 0) == (m@ & spec_mask(j) != 0),
{
    let raw = m@;
    let mask = spec_mask(k);
    let other = spec_mask(j);
    assert(TRANSMISSION_FAIL_MASK & TRANSMISSION_OK_MASK == 0) by (bit_vector);
    assert(TRANSMISSION_FAIL_MASK & DATA_READY_MASK == 0) by (bit_vector);
    assert(TRANSMISSION_OK_MASK & TRANSMISSION_FAIL_MASK == 0) by (bit_vector);
    assert(TRANSMISSION_OK_MASK & DATA_READY_MASK == 0) by (bit_vector);
    assert(DATA_READY_MASK & TRANSMISSION_FAIL_MASK == 0) by (bit_vector);
    assert(DATA_READY_MASK & TRANSMISSION_OK_MASK == 0) by (bit_vector);
    assert(mask != 0);
    assert(mask != 0 ==> (raw | mask) & mask != 0) by (bit_vector);
    if j != k {
        assert(mask & other == 0);
        assert(mask & other == 0 ==> ((raw | mask) & other != 0) == (raw & other != 0))
            by (bit_vector);
    }
}

} // verus!
