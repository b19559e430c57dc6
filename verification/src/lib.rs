//! Serial codec for MKS SERVO42 closed-loop stepper-motor controllers.
//!
//! The library builds outgoing command frames (`[address, opcode, payload...,
//! checksum]`) and decodes the byte streams coming back from the device into
//! typed sensor readings.  It is transport-agnostic: callers send the produced
//! bytes over whatever serial link they own and hand the received bytes to the
//! matching parser.
//!
//! Every command builder states the exact bytes it produces, and every parser
//! states exactly which frame it accepts and what value it decodes.

use vstd::prelude::*;

pub mod bytes;
pub mod direction;
pub mod enums;
mod errors;
pub mod frame;
pub mod helpers;
pub mod opcodes;
pub mod response;

pub use direction::Direction;
pub use enums::{
    BaudRate, EnLogic, MotorType, RotationDirection, SaveClearStatus, ShaftStatus, WorkMode,
    ZeroMode,
};
pub use errors::Error;
pub use frame::calculate_checksum;
pub use helpers::{
    parse_en_pin_status_response, parse_encoder_response, parse_motor_shaft_angle_error,
    parse_motor_shaft_angle_response, parse_shaft_status_response, EnPinStatus, EncoderValue,
    MotorShaftAngle, ShaftErrValue,
};
pub use response::{InvalidResponse, Response};

verus! {

/// Default hardware address for MKS SERVO42 targets.
pub const DEFAULT_ADDRESS: u8 = 0xE0;

/// Minimum allowed slave address.
pub const MIN_ADDRESS: u8 = 0xE0;

/// Maximum allowed slave address.
pub const MAX_ADDRESS: u8 = 0xE9;

/// Maximum speed value for move commands.
pub const MAX_SPEED: u8 = 0x7F;

/// Maximum index for current limit settings.
pub const MAX_CURRENT_INDEX: u8 = 0x0F;

/// Maximum index for subdivision (microstepping).
pub const MAX_SUBDIVISION_INDEX: u8 = 0x08;

/// Maximum speed index for return-to-zero.
pub const MAX_ZERO_SPEED: u8 = 0x04;

/// Milliamps per unit of current limit index.
pub const CURRENT_STEP_MA: u16 = 200;

/// Maximum torque limit.
pub const MAX_TORQUE_LIMIT: u16 = 0x4B0;

/// Main driver for communicating with an MKS SERVO42 motor.
///
/// Holds the slave address that every generated command targets.  Each
/// command builder returns the complete frame, checksum included, as an owned
/// byte vector ready for the transport layer.
#[derive(Debug, Copy, Clone)]
pub struct Driver {
    /// Slave address written as the first byte of every command.
    pub address: u8,
}

impl Default for Driver {
    /// Creates a new driver with the default address (0xE0).
    fn default() -> (d: Self)
        ensures
            d.address == DEFAULT_ADDRESS,
    {
        Driver { address: DEFAULT_ADDRESS }
    }
}

impl Driver {
    /// Creates a new driver instance with a specific target address.
    pub fn with_address(address: u8) -> (d: Self)
        ensures
            d.address == address,
    {
        Driver { address }
    }

    /// Appends the wraparound checksum to a command body.
    fn build_command(&self, body: Vec<u8>) -> (r: Vec<u8>)
        ensures
            r@ == frame::framed(body@),
    {
        let checksum = calculate_checksum(body.as_slice());
        let mut out = body;
        out.push(checksum);
        out
    }

    /// Builds a checksummed frame `[address, opcode]`.
    fn command2(&self, opcode: u8) -> (r: Vec<u8>)
        ensures
            r@ == frame::framed(seq![self.address, opcode]),
    {
        let mut body: Vec<u8> = Vec::new();
        body.push(self.address);
        body.push(opcode);
        proof {
            assert(body@ =~= seq![self.address, opcode]);
        }
        self.build_command(body)
    }

    /// Builds a checksummed frame `[address, opcode, b]`.
    fn command3(&self, opcode: u8, b: u8) -> (r: Vec<u8>)
        ensures
            r@ == frame::framed(seq![self.address, opcode, b]),
    {
        let mut body: Vec<u8> = Vec::new();
        body.push(self.address);
        body.push(opcode);
        body.push(b);
        proof {
            assert(body@ =~= seq![self.address, opcode, b]);
        }
        self.build_command(body)
    }

    /// Builds a checksummed frame `[address, opcode, hi, lo]`.
    fn command4(&self, opcode: u8, hi: u8, lo: u8) -> (r: Vec<u8>)
        ensures
            r@ == frame::framed(seq![self.address, opcode, hi, lo]),
    {
        let mut body: Vec<u8> = Vec::new();
        body.push(self.address);
        body.push(opcode);
        body.push(hi);
        body.push(lo);
        proof {
            assert(body@ =~= seq![self.address, opcode, hi, lo]);
        }
        self.build_command(body)
    }

    /// Generates a command to enable or disable the motor.
    pub fn enable_motor(&self, enable: bool) -> (r: Vec<u8>)
        ensures
            r@ == frame::framed(
                seq![
                    self.address,
                    opcodes::ENABLE_MOTOR,
                    if enable {
                        1u8
                    } else {
                        0u8
                    },
                ],
            ),
    {
        self.command3(opcodes::ENABLE_MOTOR, if enable { 1 } else { 0 })
    }

    /// Generates a command to run the motor at a constant speed.
    ///
    /// The direction is OR'd into the speed byte as a high-bit mask.  Fails
    /// with `Error::InvalidValue` exactly when the speed exceeds `MAX_SPEED`.
    pub fn run_with_constant_speed(&self, direction: RotationDirection, speed: u8) -> (r: Result<
        Vec<u8>,
        Error,
    >)
        ensures
            match r {
                Ok(v) => speed <= MAX_SPEED && v@ == frame::framed(
                    seq![
                        self.address,
                        opcodes::RUN_WITH_CONSTANT_SPEED,
                        speed | direction.spec_speed_mask(),
                    ],
                ),
                Err(e) => speed > MAX_SPEED && e == Error::InvalidValue,
            },
    {
        if speed > MAX_SPEED {
            return Err(Error::InvalidValue);
        }
        let dir_mask = direction.speed_mask();
        Ok(self.command3(opcodes::RUN_WITH_CONSTANT_SPEED, speed | dir_mask))
    }

    /// Generates a command to stop the motor immediately.
    pub fn stop(&self) -> (r: Vec<u8>)
        ensures
            r@ == frame::framed(seq![self.address, opcodes::STOP]),
    {
        self.command2(opcodes::STOP)
    }

    /// Generates a command to save or clear the current status.
    ///
    /// After saving successfully, the driver board will be disabled and needs
    /// to be re-enabled.
    pub fn save_clear_status(&self, operation: SaveClearStatus) -> (r: Vec<u8>)
        ensures
            r@ == frame::framed(
                seq![self.address, opcodes::SAVE_CLEAR_STATUS, operation.spec_as_u8()],
            ),
    {
        self.command3(opcodes::SAVE_CLEAR_STATUS, operation.as_u8())
    }

    /// Generates a command to move the motor by a relative pulse count.
    ///
    /// The direction is OR'd into the speed byte as a high-bit mask and the
    /// pulse count is encoded big-endian.  Fails with `Error::InvalidValue`
    /// exactly when the speed exceeds `MAX_SPEED`.
    pub fn run_motor(&self, direction: RotationDirection, speed: u8, pulses: u32) -> (r: Result<
        Vec<u8>,
        Error,
    >)
        ensures
            match r {
                Ok(v) => speed <= MAX_SPEED && v@ == frame::framed(
                    seq![
                        self.address,
                        opcodes::RUN_MOTOR,
                        speed | direction.spec_speed_mask(),
                        bytes::u32_byte0(pulses),
                        bytes::u32_byte1(pulses),
                        bytes::u32_byte2(pulses),
                        bytes::u32_byte3(pulses),
                    ],
                ),
                Err(e) => speed > MAX_SPEED && e == Error::InvalidValue,
            },
    {
        if speed > MAX_SPEED {
            return Err(Error::InvalidValue);
        }
        let dir_mask = direction.speed_mask();
        let (pulse0, pulse1, pulse2, pulse3) = bytes::u32_to_be(pulses);
        let mut body: Vec<u8> = Vec::new();
        body.push(self.address);
        body.push(opcodes::RUN_MOTOR);
        body.push(speed | dir_mask);
        body.push(pulse0);
        body.push(pulse1);
        body.push(pulse2);
        body.push(pulse3);
        proof {
            assert(body@ =~= seq![
                self.address,
                opcodes::RUN_MOTOR,
                speed | direction.spec_speed_mask(),
                bytes::u32_byte0(pulses),
                bytes::u32_byte1(pulses),
                bytes::u32_byte2(pulses),
                bytes::u32_byte3(pulses),
            ]);
        }
        Ok(self.build_command(body))
    }

    /// Generates a command to trigger encoder calibration.
    pub fn calibrate_encoder(&self) -> (r: Vec<u8>)
        ensures
            r@ == frame::framed(seq![self.address, opcodes::CALIBRATE_ENCODER, 0u8]),
    {
        self.command3(opcodes::CALIBRATE_ENCODER, 0x00)
    }

    /// Generates a command to set the current limit index.
    ///
    /// Fails with `Error::InvalidValue` exactly when the index exceeds
    /// `MAX_CURRENT_INDEX`.
    pub fn set_current_limit(&self, index: u8) -> (r: Result<Vec<u8>, Error>)
        ensures
            match r {
                Ok(v) => index <= MAX_CURRENT_INDEX && v@ == frame::framed(
                    seq![self.address, opcodes::SET_CURRENT_LIMIT, index],
                ),
                Err(e) => index > MAX_CURRENT_INDEX && e == Error::InvalidValue,
            },
    {
        if index > MAX_CURRENT_INDEX {
            return Err(Error::InvalidValue);
        }
        Ok(self.command3(opcodes::SET_CURRENT_LIMIT, index))
    }

    /// Generates a command to set the subdivision (microstepping) level.
    ///
    /// Fails with `Error::InvalidValue` exactly when the index exceeds
    /// `MAX_SUBDIVISION_INDEX`.
    pub fn set_subdivision(&self, step_index: u8) -> (r: Result<Vec<u8>, Error>)
        ensures
            match r {
                Ok(v) => step_index <= MAX_SUBDIVISION_INDEX && v@ == frame::framed(
                    seq![self.address, opcodes::SET_SUBDIVISION, step_index],
                ),
                Err(e) => step_index > MAX_SUBDIVISION_INDEX && e == Error::InvalidValue,
            },
    {
        if step_index > MAX_SUBDIVISION_INDEX {
            return Err(Error::InvalidValue);
        }
        Ok(self.command3(opcodes::SET_SUBDIVISION, step_index))
    }

    /// Generates a command to set the enable logic.
    pub fn set_enable_logic(&self, logic: EnLogic) -> (r: Vec<u8>)
        ensures
            r@ == frame::framed(seq![self.address, opcodes::SET_EN_LOGIC, logic.spec_as_u8()]),
    {
        self.command3(opcodes::SET_EN_LOGIC, logic.as_u8())
    }

    /// Generates a command to set the motor direction polarity.
    pub fn set_direction(&self, direction: RotationDirection) -> (r: Vec<u8>)
        ensures
            r@ == frame::framed(
                seq![self.address, opcodes::SET_DIRECTION, direction.spec_as_u8()],
            ),
    {
        self.command3(opcodes::SET_DIRECTION, direction.as_u8())
    }

    /// Generates a command to enable or disable automatic screen off.
    ///
    /// The wire encoding is inverted: `0x00` enables the feature.
    pub fn set_auto_screen_off(&self, enable: bool) -> (r: Vec<u8>)
        ensures
            r@ == frame::framed(
                seq![
                    self.address,
                    opcodes::SET_AUTO_SCREEN_OFF,
                    if enable {
                        0u8
                    } else {
                        1u8
                    },
                ],
            ),
    {
        self.command3(opcodes::SET_AUTO_SCREEN_OFF, if enable { 0 } else { 1 })
    }

    /// Generates a command to enable or disable stall protection.
    ///
    /// The wire encoding is inverted: `0x00` enables the feature.
    pub fn set_stall_protection(&self, enable: bool) -> (r: Vec<u8>)
        ensures
            r@ == frame::framed(
                seq![
                    self.address,
                    opcodes::SET_PROTECTION,
                    if enable {
                        0u8
                    } else {
                        1u8
                    },
                ],
            ),
    {
        self.command3(opcodes::SET_PROTECTION, if enable { 0 } else { 1 })
    }

    /// Generates a command to enable or disable step interpolation.
    ///
    /// The wire encoding is inverted: `0x00` enables the feature.
    pub fn set_interpolation(&self, enable: bool) -> (r: Vec<u8>)
        ensures
            r@ == frame::framed(
                seq![
                    self.address,
                    opcodes::SET_INTERPOLATION,
                    if enable {
                        0u8
                    } else {
                        1u8
                    },
                ],
            ),
    {
        self.command3(opcodes::SET_INTERPOLATION, if enable { 0 } else { 1 })
    }

    /// Generates a command to set the return-to-zero mode.
    pub fn set_zero_mode(&self, mode: ZeroMode) -> (r: Vec<u8>)
        ensures
            r@ == frame::framed(seq![self.address, opcodes::SET_ZERO_MODE, mode.spec_as_u8()]),
    {
        self.command3(opcodes::SET_ZERO_MODE, mode.as_u8())
    }

    /// Generates a command to set the current position as zero.
    pub fn set_current_as_zero(&self) -> (r: Vec<u8>)
        ensures
            r@ == frame::framed(seq![self.address, opcodes::SET_CURRENT_AS_ZERO, 0u8]),
    {
        self.command3(opcodes::SET_CURRENT_AS_ZERO, 0x00)
    }

    /// Generates a command to set the return-to-zero speed.
    ///
    /// Fails with `Error::InvalidValue` exactly when the speed index exceeds
    /// `MAX_ZERO_SPEED`.
    pub fn set_zero_speed(&self, speed: u8) -> (r: Result<Vec<u8>, Error>)
        ensures
            match r {
                Ok(v) => speed <= MAX_ZERO_SPEED && v@ == frame::framed(
                    seq![self.address, opcodes::SET_ZERO_SPEED, speed],
                ),
                Err(e) => speed > MAX_ZERO_SPEED && e == Error::InvalidValue,
            },
    {
        if speed > MAX_ZERO_SPEED {
            return Err(Error::InvalidValue);
        }
        Ok(self.command3(opcodes::SET_ZERO_SPEED, speed))
    }

    /// Generates a command to initiate the return-to-zero sequence.
    pub fn go_to_zero(&self) -> (r: Vec<u8>)
        ensures
            r@ == frame::framed(seq![self.address, opcodes::GO_TO_ZERO, 0u8]),
    {
        self.command3(opcodes::GO_TO_ZERO, 0x00)
    }

    /// Generates a command to set the return-to-zero direction.
    pub fn set_zero_direction(&self, direction: RotationDirection) -> (r: Vec<u8>)
        ensures
            r@ == frame::framed(
                seq![self.address, opcodes::SET_ZERO_DIRECTION, direction.spec_as_u8()],
            ),
    {
        self.command3(opcodes::SET_ZERO_DIRECTION, direction.as_u8())
    }

    /// Generates a command to set the position loop Proportional (Kp)
    /// coefficient, encoded big-endian.
    pub fn set_position_kp(&self, value: u16) -> (r: Vec<u8>)
        ensures
            r@ == frame::framed(
                seq![
                    self.address,
                    opcodes::SET_POSITION_KP,
                    bytes::u16_hi(value),
                    bytes::u16_lo(value),
                ],
            ),
    {
        let (hi, lo) = bytes::u16_to_be(value);
        self.command4(opcodes::SET_POSITION_KP, hi, lo)
    }

    /// Generates a command to set the position loop Integral (Ki)
    /// coefficient, encoded big-endian.
    pub fn set_position_ki(&self, value: u16) -> (r: Vec<u8>)
        ensures
            r@ == frame::framed(
                seq![
                    self.address,
                    opcodes::SET_POSITION_KI,
                    bytes::u16_hi(value),
                    bytes::u16_lo(value),
                ],
            ),
    {
        let (hi, lo) = bytes::u16_to_be(value);
        self.command4(opcodes::SET_POSITION_KI, hi, lo)
    }

    /// Generates a command to set the position loop Derivative (Kd)
    /// coefficient, encoded big-endian.
    pub fn set_position_kd(&self, value: u16) -> (r: Vec<u8>)
        ensures
            r@ == frame::framed(
                seq![
                    self.address,
                    opcodes::SET_POSITION_KD,
                    bytes::u16_hi(value),
                    bytes::u16_lo(value),
                ],
            ),
    {
        let (hi, lo) = bytes::u16_to_be(value);
        self.command4(opcodes::SET_POSITION_KD, hi, lo)
    }

    /// Generates a command to set the motor acceleration, encoded big-endian.
    pub fn set_acceleration(&self, value: u16) -> (r: Vec<u8>)
        ensures
            r@ == frame::framed(
                seq![
                    self.address,
                    opcodes::SET_ACCELERATION,
                    bytes::u16_hi(value),
                    bytes::u16_lo(value),
                ],
            ),
    {
        let (hi, lo) = bytes::u16_to_be(value);
        self.command4(opcodes::SET_ACCELERATION, hi, lo)
    }

    /// Generates a command to set the maximum torque limit, encoded
    /// big-endian.
    ///
    /// Fails with `Error::InvalidValue` exactly when the value exceeds
    /// `MAX_TORQUE_LIMIT`.
    pub fn set_max_torque(&self, value: u16) -> (r: Result<Vec<u8>, Error>)
        ensures
            match r {
                Ok(v) => value <= MAX_TORQUE_LIMIT && v@ == frame::framed(
                    seq![
                        self.address,
                        opcodes::SET_MAX_TORQUE,
                        bytes::u16_hi(value),
                        bytes::u16_lo(value),
                    ],
                ),
                Err(e) => value > MAX_TORQUE_LIMIT && e == Error::InvalidValue,
            },
    {
        if value > MAX_TORQUE_LIMIT {
            return Err(Error::InvalidValue);
        }
        let (hi, lo) = bytes::u16_to_be(value);
        Ok(self.command4(opcodes::SET_MAX_TORQUE, hi, lo))
    }

    /// Generates a command to read the motor shaft status.
    pub fn read_shaft_status(&self) -> (r: Vec<u8>)
        ensures
            r@ == frame::framed(seq![self.address, opcodes::READ_SHAFT_STATUS]),
    {
        self.command2(opcodes::READ_SHAFT_STATUS)
    }

    /// Generates a command to read the current encoder value.
    pub fn read_encoder_value(&self) -> (r: Vec<u8>)
        ensures
            r@ == frame::framed(seq![self.address, opcodes::READ_ENCODER_VALUE]),
    {
        self.command2(opcodes::READ_ENCODER_VALUE)
    }

    /// Generates a command to read the total pulse count.
    pub fn read_pulse_count(&self) -> (r: Vec<u8>)
        ensures
            r@ == frame::framed(seq![self.address, opcodes::READ_PULSE_COUNT]),
    {
        self.command2(opcodes::READ_PULSE_COUNT)
    }

    /// Generates a command to read the motor shaft angle.
    ///
    /// The response carries a 4-byte signed angle in encoder units; one full
    /// rotation corresponds to 0-65535.
    pub fn read_motor_shaft_angle(&self) -> (r: Vec<u8>)
        ensures
            r@ == frame::framed(seq![self.address, opcodes::READ_MOTOR_SHAFT_ANGLE]),
    {
        self.command2(opcodes::READ_MOTOR_SHAFT_ANGLE)
    }

    /// Generates a command to read the EN pin status.
    pub fn read_en_pin_status(&self) -> (r: Vec<u8>)
        ensures
            r@ == frame::framed(seq![self.address, opcodes::READ_EN_PIN_STATUS]),
    {
        self.command2(opcodes::READ_EN_PIN_STATUS)
    }

    /// Generates a command to read the motor shaft angle error.
    pub fn read_motor_shaft_angle_error(&self) -> (r: Vec<u8>)
        ensures
            r@ == frame::framed(seq![self.address, opcodes::READ_MOTOR_SHAFT_ANGLE_ERROR]),
    {
        self.command2(opcodes::READ_MOTOR_SHAFT_ANGLE_ERROR)
    }

    /// Generates a command to read the release status of the motor.
    pub fn read_release_status(&self) -> (r: Vec<u8>)
        ensures
            r@ == frame::framed(seq![self.address, opcodes::READ_RELEASE_STATUS]),
    {
        self.command2(opcodes::READ_RELEASE_STATUS)
    }
}

} // verus!
