//! The failures a session with the device can report.

use vstd::prelude::*;

verus! {

/// Everything that can go wrong between an intent and the device.
///
/// The encoders report the first kind and a transfer the third. The second
/// and the fourth arise where the host opens the connection and where it
/// locks a shared session; they stand here so that a host names all four
/// in one type.
#[derive(Clone, Copy, Debug, PartialEq, Eq, Structural)]
pub enum Error {
    /// The message holds a character that no key produces.
    UnsupportedCharacter(char),
    /// The serial connection could not be opened.
    DeviceUnavailable,
    /// A write on the open connection failed; nothing is retried.
    TransportError,
    /// The shared session handle could not be locked.
    SynchronizationFailure,
}

} // verus!
