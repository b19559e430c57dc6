//! The error values surfaced by the codec.

use vstd::prelude::*;

verus! {

/// Crate errors.
#[derive(Debug, Copy, Clone, PartialEq, Eq, Structural)]
pub enum Error {
    /// Provided value is out of range.
    InvalidValue,
    /// Checksum mismatch in received packet.
    Checksum,
    /// Received packet has invalid format or length.
    InvalidPacket,
}

impl Error {
    /// Short human-readable description of the error.
    pub fn as_str(self) -> (r: &'static str)
        ensures
            self == Error::InvalidValue ==> r@ == "Invalid value"@,
            self == Error::Checksum ==> r@ == "Checksum mismatch"@,
            self == Error::InvalidPacket ==> r@ == "Invalid packet format"@,
    {
        match self {
            Error::InvalidValue => "Invalid value",
            Error::Checksum => "Checksum mismatch",
            Error::InvalidPacket => "Invalid packet format",
        }
    }
}

} // verus!
