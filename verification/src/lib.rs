//! Semantic decoding layer for the control/status registers of a packet
//! radio transceiver: the status register, the FIFO status register and the
//! interrupt mask register.
//!
//! Each register is an 8-bit value read from or written to the device over a
//! bus; this crate gives those bytes their meaning. Every decoder is a pure,
//! constant-time transformation of a byte, with its behaviour stated in
//! contracts.

pub mod bits;
pub mod fifo;
pub mod interrupts;
pub mod pipe;
pub mod status;
