//! Command opcodes of the MKS SERVO42 serial protocol, one fixed byte per
//! command.

use vstd::prelude::*;

verus! {

/// Read the current encoder value.
pub const READ_ENCODER_VALUE: u8 = 0x30;

/// Read the accumulated pulse count.
pub const READ_PULSE_COUNT: u8 = 0x33;

/// Read the motor shaft angle.
pub const READ_MOTOR_SHAFT_ANGLE: u8 = 0x36;

/// Read the motor shaft angle error.
pub const READ_MOTOR_SHAFT_ANGLE_ERROR: u8 = 0x39;

/// Read the EN pin status.
pub const READ_EN_PIN_STATUS: u8 = 0x3A;

/// Read the release status.
pub const READ_RELEASE_STATUS: u8 = 0x3D;

/// Read the shaft blocked/unblocked status.
pub const READ_SHAFT_STATUS: u8 = 0x3E;

/// Save or clear the current status.
pub const SAVE_CLEAR_STATUS: u8 = 0xFF;

/// Trigger encoder calibration.
pub const CALIBRATE_ENCODER: u8 = 0x80;

/// Set the current limit index.
pub const SET_CURRENT_LIMIT: u8 = 0x83;

/// Set the subdivision (microstepping) level.
pub const SET_SUBDIVISION: u8 = 0x84;

/// Set the EN pin logic.
pub const SET_EN_LOGIC: u8 = 0x85;

/// Set the motor direction polarity.
pub const SET_DIRECTION: u8 = 0x86;

/// Enable or disable automatic screen off.
pub const SET_AUTO_SCREEN_OFF: u8 = 0x87;

/// Enable or disable stall protection.
pub const SET_PROTECTION: u8 = 0x88;

/// Enable or disable step interpolation.
pub const SET_INTERPOLATION: u8 = 0x89;

/// Set the return-to-zero mode.
pub const SET_ZERO_MODE: u8 = 0x90;

/// Set the current position as zero.
pub const SET_CURRENT_AS_ZERO: u8 = 0x91;

/// Set the return-to-zero speed.
pub const SET_ZERO_SPEED: u8 = 0x92;

/// Set the return-to-zero direction.
pub const SET_ZERO_DIRECTION: u8 = 0x93;

/// Start the return-to-zero sequence.
pub const GO_TO_ZERO: u8 = 0x94;

/// Set the position loop proportional coefficient.
pub const SET_POSITION_KP: u8 = 0xA1;

/// Set the position loop integral coefficient.
pub const SET_POSITION_KI: u8 = 0xA2;

/// Set the position loop derivative coefficient.
pub const SET_POSITION_KD: u8 = 0xA3;

/// Set the motor acceleration.
pub const SET_ACCELERATION: u8 = 0xA4;

/// Set the maximum torque limit.
pub const SET_MAX_TORQUE: u8 = 0xA5;

/// Enable or disable the motor.
pub const ENABLE_MOTOR: u8 = 0xF3;

/// Run the motor at a constant speed.
pub const RUN_WITH_CONSTANT_SPEED: u8 = 0xF6;

/// Stop the motor immediately.
pub const STOP: u8 = 0xF7;

/// Move the motor by a pulse count.
pub const RUN_MOTOR: u8 = 0xFD;

} // verus!
