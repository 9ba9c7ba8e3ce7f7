//! Encoders and write scheduling for a serial HID-emulation device.
//!
//! Keyboard and mouse intents are turned into the exact bytes the device
//! firmware expects, and a packet is turned into the ordered list of writes
//! and pauses that the serial line needs. Nothing here touches the line
//! itself: the host performs the operations that [`transport`] hands out.

use vstd::prelude::*;

pub mod action;
pub mod error;
pub mod transport;

verus! {

/// Control byte that tells the device to commit and clear its input buffer.
pub const FLUSH: u8 = 0x38;

} // verus!
