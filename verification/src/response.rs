//! Generic success/failure byte returned by configuration commands.

use vstd::prelude::*;

verus! {

/// Error returned when a byte cannot be converted to a `Response`.
#[derive(Debug, Clone, Copy, PartialEq, Eq, Structural)]
pub struct InvalidResponse;

/// Common response from the motor.
#[derive(Debug, Clone, Copy, PartialEq, Eq, Structural)]
pub enum Response {
    /// Command execution failed.
    Failure,
    /// Command execution succeeded.
    Success,
}

impl Response {
    /// Protocol byte for this response.
    pub open spec fn spec_as_u8(self) -> u8 {
        match self {
            Response::Failure => 0x00,
            Response::Success => 0x01,
        }
    }

    /// Protocol byte for this response.
    #[verifier::when_used_as_spec(spec_as_u8)]
    pub fn as_u8(self) -> (r: u8)
        ensures
            r == self.spec_as_u8(),
    {
        match self {
            Response::Failure => 0x00,
            Response::Success => 0x01,
        }
    }

    /// Decodes a status byte: exactly `0x00` and `0x01` are valid.
    pub fn try_from(value: u8) -> (r: Result<Response, InvalidResponse>)
        ensures
            match r {
                Ok(resp) => value == resp.spec_as_u8(),
                Err(e) => value > 0x01 && e == InvalidResponse,
            },
    {
        match value {
            0x00 => Ok(Response::Failure),
            0x01 => Ok(Response::Success),
            _ => Err(InvalidResponse),
        }
    }

    /// True exactly of `Success`.
    pub fn is_success(self) -> (r: bool)
        ensures
            r == (self == Response::Success),
    {
        matches!(self, Response::Success)
    }

    /// True exactly of `Failure`.
    pub fn is_failure(self) -> (r: bool)
        ensures
            r == (self == Response::Failure),
    {
        matches!(self, Response::Failure)
    }
}

} // verus!
