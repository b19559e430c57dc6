//! Rotation direction encoded directly as a high-bit mask.

use vstd::prelude::*;

verus! {

/// Motor rotation direction.
#[derive(Copy, Clone, Debug, PartialEq, Eq, Structural)]
pub enum Direction {
    /// Clockwise / Forward rotation.
    Forward,
    /// Counter-clockwise / Reverse rotation.
    Reverse,
}

impl Direction {
    /// Protocol byte for this direction.
    pub open spec fn spec_as_u8(self) -> u8 {
        match self {
            Direction::Forward => 0x80,
            Direction::Reverse => 0x00,
        }
    }

    /// Protocol byte for this direction.
    #[verifier::when_used_as_spec(spec_as_u8)]
    pub fn as_u8(self) -> (r: u8)
        ensures
            r == self.spec_as_u8(),
    {
        match self {
            Direction::Forward => 0x80,
            Direction::Reverse => 0x00,
        }
    }
}

} // verus!
