//! The error kinds raised by the register access layer and the LED codec.

use vstd::prelude::*;

verus! {

/// Everything that a register operation or a codec constructor can report.
#[derive(Debug, Clone, Copy, PartialEq, Eq)]
pub enum CtrlError {
    /// A numeric code for a blink parameter was out of range.
    Parse,
    /// The device's version register holds no known revision code.
    UnknownDevice,
    /// No matching device was found.
    NotExist,
    /// An offset or a length violates the required alignment.
    Align,
    /// An access would run past the 16-bit register address space.
    Bound,
    /// The transport moved fewer bytes than were requested.
    Partial,
    /// A transport-level error, propagated verbatim.
    Usb(rusb::Error),
}

} // verus!
