//! Response parsers.  Each one scans a possibly-noisy byte buffer for the
//! first structurally valid frame of its shape (address in range, full length
//! available, matching checksum, any mandatory trailing byte) and decodes the
//! matched bytes into a typed value.

use vstd::prelude::*;

use crate::bytes::{
    be16, be16_signed, be16_value, be32, be32_signed, lemma_be16_roundtrip, lemma_be32_roundtrip,
    lemma_signed32_roundtrip, signed16, signed32, u16_hi, u16_lo, u32_byte0, u32_byte1, u32_byte2,
    u32_byte3, unsigned32,
};
use crate::errors::Error;
use crate::frame::{find_frame, first_frame_at, frame_at, framed, valid_address_byte};

verus! {

/// Represents an absolute encoder value including multi-turn carry.
#[derive(Debug, Clone, Copy, PartialEq, Eq, Structural)]
pub struct EncoderValue {
    /// Number of full rotations (positive or negative).
    pub carry: i32,
    /// 16-bit absolute position within the current turn.
    pub value: u16,
}

/// Represents an encoder shaft error.
#[derive(Debug, Clone, Copy, PartialEq, Eq, Structural)]
pub struct ShaftErrValue {
    /// 16-bit shaft error in encoder units.
    pub value: i16,
}

/// Represents a motor shaft angle value.
#[derive(Debug, Clone, Copy, PartialEq, Eq, Structural)]
pub struct MotorShaftAngle {
    /// 32-bit signed angle in encoder units.
    pub value: i32,
}

/// Represents EN pin status.
#[derive(Debug, Clone, Copy, PartialEq, Eq, Structural)]
pub enum EnPinStatus {
    /// Motor is enabled.
    Enabled,
    /// Motor is disabled.
    Disabled,
    /// Error state.
    Error,
}

/// An encoder-value response frame starts at offset `i`: 8 bytes, the last
/// being the wraparound sum of the first 7.
pub open spec fn encoder_frame_at(data: Seq<u8>, i: int) -> bool {
    frame_at(data, i, 8, 7, false)
}

/// The first encoder-value frame in the buffer starts at offset `i`.
pub open spec fn first_encoder_frame_at(data: Seq<u8>, i: int) -> bool {
    first_frame_at(data, i, 8, 7, false)
}

/// Multi-turn carry carried by an encoder-value frame at offset `i`.
pub open spec fn encoder_carry_at(data: Seq<u8>, i: int) -> int {
    signed32(be32(data[i + 1], data[i + 2], data[i + 3], data[i + 4]))
}

/// In-turn position carried by an encoder-value frame at offset `i`.
pub open spec fn encoder_position_at(data: Seq<u8>, i: int) -> int {
    be16(data[i + 5], data[i + 6])
}

/// A shaft-angle response frame starts at offset `i`: 6 bytes, the last being
/// the wraparound sum of the first 5.
pub open spec fn angle_frame_at(data: Seq<u8>, i: int) -> bool {
    frame_at(data, i, 6, 5, false)
}

/// The first shaft-angle frame in the buffer starts at offset `i`.
pub open spec fn first_angle_frame_at(data: Seq<u8>, i: int) -> bool {
    first_frame_at(data, i, 6, 5, false)
}

/// Signed angle carried by a shaft-angle frame at offset `i`.
pub open spec fn angle_value_at(data: Seq<u8>, i: int) -> int {
    signed32(be32(data[i + 1], data[i + 2], data[i + 3], data[i + 4]))
}

/// A shaft-angle-error response frame starts at offset `i`: 5 bytes, the
/// fourth being the wraparound sum of the first 3, the fifth a mandatory zero.
pub open spec fn angle_error_frame_at(data: Seq<u8>, i: int) -> bool {
    frame_at(data, i, 5, 3, true)
}

/// The first shaft-angle-error frame in the buffer starts at offset `i`.
pub open spec fn first_angle_error_frame_at(data: Seq<u8>, i: int) -> bool {
    first_frame_at(data, i, 5, 3, true)
}

/// Signed error carried by a shaft-angle-error frame at offset `i`.
pub open spec fn angle_error_value_at(data: Seq<u8>, i: int) -> int {
    signed16(be16(data[i + 1], data[i + 2]))
}

/// A status response frame starts at offset `i`: 3 bytes, the last being the
/// wraparound sum of the address and status bytes.
pub open spec fn status_frame_at(data: Seq<u8>, i: int) -> bool {
    frame_at(data, i, 3, 2, false)
}

/// The first status frame in the buffer starts at offset `i`.
pub open spec fn first_status_frame_at(data: Seq<u8>, i: int) -> bool {
    first_frame_at(data, i, 3, 2, false)
}

/// EN pin status encoded by a status byte; bytes outside the closed set are
/// invalid.
pub open spec fn en_pin_status_of(b: u8) -> Option<EnPinStatus> {
    if b == 0x01 {
        Some(EnPinStatus::Enabled)
    } else if b == 0x02 {
        Some(EnPinStatus::Disabled)
    } else if b == 0x00 {
        Some(EnPinStatus::Error)
    } else {
        None
    }
}

/// Shaft status encoded by a status byte; bytes outside the closed set are
/// invalid.
pub open spec fn shaft_status_of(b: u8) -> Option<crate::enums::ShaftStatus> {
    if b == 0x01 {
        Some(crate::enums::ShaftStatus::Blocked)
    } else if b == 0x02 {
        Some(crate::enums::ShaftStatus::Unblocked)
    } else if b == 0x00 {
        Some(crate::enums::ShaftStatus::Error)
    } else {
        None
    }
}

/// The 7-byte body of an encoder-value frame carrying the given fields:
/// address, 4-byte big-endian two's-complement carry, 2-byte big-endian
/// position.
pub open spec fn encoder_frame_body(address: u8, carry: i32, position: u16) -> Seq<u8> {
    seq![
        address,
        u32_byte0(unsigned32(carry)),
        u32_byte1(unsigned32(carry)),
        u32_byte2(unsigned32(carry)),
        u32_byte3(unsigned32(carry)),
        u16_hi(position),
        u16_lo(position),
    ]
}

/// Law: framing an encoder-shaped body (appending the wraparound sum of its
/// bytes) yields a buffer whose first and only frame is at offset 0 and whose
/// decoded fields are exactly the fields that were packed, so re-parsing a
/// freshly built frame recovers them byte for byte.
pub proof fn lemma_encoder_frame_round_trip(address: u8, carry: i32, position: u16)
    requires
        valid_address_byte(address),
    ensures
        first_encoder_frame_at(framed(encoder_frame_body(address, carry, position)), 0),
        encoder_carry_at(framed(encoder_frame_body(address, carry, position)), 0) == carry,
        encoder_position_at(framed(encoder_frame_body(address, carry, position)), 0) == position,
{
    let body = encoder_frame_body(address, carry, position);
    let data = framed(body);
    assert(data.len() == 8);
    assert(data.subrange(0, 7) =~= body);
    assert(data[7] == crate::frame::checksum_of(data.subrange(0, 7)));
    lemma_be32_roundtrip(unsigned32(carry));
    lemma_signed32_roundtrip(carry);
    lemma_be16_roundtrip(position);
    assert(encoder_carry_at(data, 0) == signed32(
        be32(data[1], data[2], data[3], data[4]),
    ));
    assert(encoder_frame_at(data, 0));
}

/// Parses raw serial feedback into an `EncoderValue`.
///
/// Scans the buffer for the first valid encoder-value frame and decodes its
/// carry (4-byte signed big-endian) and position (2-byte unsigned big-endian).
pub fn parse_encoder_response(data: &[u8]) -> (r: Result<EncoderValue, Error>)
    ensures
        match r {
            Ok(v) => exists|i: int|
                #[trigger] first_encoder_frame_at(data@, i) && v.carry == encoder_carry_at(data@, i)
                    && v.value == encoder_position_at(data@, i),
            Err(e) => e == Error::InvalidPacket && (forall|i: int|
                !(#[trigger] encoder_frame_at(data@, i))),
        },
{
    match find_frame(data, 8, 7, false) {
        Some(i) => {
            let carry = be32_signed(data[i + 1], data[i + 2], data[i + 3], data[i + 4]);
            let value = be16_value(data[i + 5], data[i + 6]);
            proof {
                assert(first_encoder_frame_at(data@, i as int));
            }
            Ok(EncoderValue { carry, value })
        },
        None => {
            proof {
                assert forall|i: int| !encoder_frame_at(data@, i) by {
                    assert(!frame_at(data@, i, 8, 7, false));
                }
            }
            Err(Error::InvalidPacket)
        },
    }
}

/// Parses the motor shaft angle error response.
///
/// The frame is `[address, error_high, error_low, checksum, 0x00]`, the error
/// a signed 16-bit big-endian value in encoder units.
pub fn parse_motor_shaft_angle_error(data: &[u8]) -> (r: Result<ShaftErrValue, Error>)
    ensures
        match r {
            Ok(v) => exists|i: int|
                #[trigger] first_angle_error_frame_at(data@, i) && v.value == angle_error_value_at(
                    data@,
                    i,
                ),
            Err(e) => e == Error::InvalidPacket && (forall|i: int|
                !(#[trigger] angle_error_frame_at(data@, i))),
        },
{
    match find_frame(data, 5, 3, true) {
        Some(i) => {
            let value = be16_signed(data[i + 1], data[i + 2]);
            proof {
                assert(first_angle_error_frame_at(data@, i as int));
            }
            Ok(ShaftErrValue { value })
        },
        None => {
            proof {
                assert forall|i: int| !angle_error_frame_at(data@, i) by {
                    assert(!frame_at(data@, i, 5, 3, true));
                }
            }
            Err(Error::InvalidPacket)
        },
    }
}

/// Parses the motor shaft angle response.
///
/// The frame is `[address, angle(4 bytes), checksum]`, the angle a signed
/// 32-bit big-endian value in encoder units.
pub fn parse_motor_shaft_angle_response(data: &[u8]) -> (r: Result<MotorShaftAngle, Error>)
    ensures
        match r {
            Ok(v) => exists|i: int|
                #[trigger] first_angle_frame_at(data@, i) && v.value == angle_value_at(data@, i),
            Err(e) => e == Error::InvalidPacket && (forall|i: int|
                !(#[trigger] angle_frame_at(data@, i))),
        },
{
    match find_frame(data, 6, 5, false) {
        Some(i) => {
            let value = be32_signed(data[i + 1], data[i + 2], data[i + 3], data[i + 4]);
            proof {
                assert(first_angle_frame_at(data@, i as int));
            }
            Ok(MotorShaftAngle { value })
        },
        None => {
            proof {
                assert forall|i: int| !angle_frame_at(data@, i) by {
                    assert(!frame_at(data@, i, 6, 5, false));
                }
            }
            Err(Error::InvalidPacket)
        },
    }
}

/// Parses the EN pin status response.
///
/// The frame is `[address, status, checksum]`; the status byte must be one of
/// the three defined values, and a valid frame carrying any other byte is
/// rejected as a whole.
pub fn parse_en_pin_status_response(data: &[u8]) -> (r: Result<EnPinStatus, Error>)
    ensures
        match r {
            Ok(s) => exists|i: int|
                #[trigger] first_status_frame_at(data@, i) && en_pin_status_of(data@[i + 1])
                    == Some(s),
            Err(e) => e == Error::InvalidPacket && ((forall|i: int|
                !(#[trigger] status_frame_at(data@, i))) || (exists|i: int|
                #[trigger] first_status_frame_at(data@, i) && en_pin_status_of(data@[i + 1])
                    is None)),
        },
{
    match find_frame(data, 3, 2, false) {
        Some(i) => {
            proof {
                assert(first_status_frame_at(data@, i as int));
            }
            let status = data[i + 1];
            if status == 0x01 {
                Ok(EnPinStatus::Enabled)
            } else if status == 0x02 {
                Ok(EnPinStatus::Disabled)
            } else if status == 0x00 {
                Ok(EnPinStatus::Error)
            } else {
                Err(Error::InvalidPacket)
            }
        },
        None => {
            proof {
                assert forall|i: int| !status_frame_at(data@, i) by {
                    assert(!frame_at(data@, i, 3, 2, false));
                }
            }
            Err(Error::InvalidPacket)
        },
    }
}

/// Parses the motor shaft status response.
///
/// The frame is `[address, status, checksum]`; the status byte must be one of
/// the three defined values, and a valid frame carrying any other byte is
/// rejected as a whole.
pub fn parse_shaft_status_response(data: &[u8]) -> (r: Result<crate::enums::ShaftStatus, Error>)
    ensures
        match r {
            Ok(s) => exists|i: int|
                #[trigger] first_status_frame_at(data@, i) && shaft_status_of(data@[i + 1]) == Some(
                    s,
                ),
            Err(e) => e == Error::InvalidPacket && ((forall|i: int|
                !(#[trigger] status_frame_at(data@, i))) || (exists|i: int|
                #[trigger] first_status_frame_at(data@, i) && shaft_status_of(data@[i + 1])
                    is None)),
        },
{
    match find_frame(data, 3, 2, false) {
        Some(i) => {
            proof {
                assert(first_status_frame_at(data@, i as int));
            }
            let status = data[i + 1];
            if status == 0x01 {
                Ok(crate::enums::ShaftStatus::Blocked)
            } else if status == 0x02 {
                Ok(crate::enums::ShaftStatus::Unblocked)
            } else if status == 0x00 {
                Ok(crate::enums::ShaftStatus::Error)
            } else {
                Err(Error::InvalidPacket)
            }
        },
        None => {
            proof {
                assert forall|i: int| !status_frame_at(data@, i) by {
                    assert(!frame_at(data@, i, 3, 2, false));
                }
            }
            Err(Error::InvalidPacket)
        },
    }
}

} // verus!
