//! Enumerated protocol values.  Each variant stands for one documented byte
//! on the wire; `as_u8` gives that byte, and the response parsers reject any
//! byte outside the closed set.

use vstd::prelude::*;

verus! {

/// Motor step angle configuration.
#[derive(Copy, Clone, Debug, PartialEq, Eq, Structural)]
pub enum MotorType {
    /// 0.9 degrees per step motor.
    Deg09,
    /// 1.8 degrees per step motor.
    Deg18,
}

impl MotorType {
    /// Protocol byte for this motor type.
    pub open spec fn spec_as_u8(self) -> u8 {
        match self {
            MotorType::Deg09 => 0x00,
            MotorType::Deg18 => 0x01,
        }
    }

    /// Protocol byte for this motor type.
    #[verifier::when_used_as_spec(spec_as_u8)]
    pub fn as_u8(self) -> (r: u8)
        ensures
            r == self.spec_as_u8(),
    {
        match self {
            MotorType::Deg09 => 0x00,
            MotorType::Deg18 => 0x01,
        }
    }
}

/// Motor operating mode.
#[derive(Copy, Clone, Debug, PartialEq, Eq, Structural)]
pub enum WorkMode {
    /// Open-loop mode.
    Open,
    /// Vector Field Oriented Control (FOC) mode.
    Vfoc,
    /// UART control mode.
    Uart,
}

impl WorkMode {
    /// Protocol byte for this work mode.
    pub open spec fn spec_as_u8(self) -> u8 {
        match self {
            WorkMode::Open => 0x00,
            WorkMode::Vfoc => 0x01,
            WorkMode::Uart => 0x02,
        }
    }

    /// Protocol byte for this work mode.
    #[verifier::when_used_as_spec(spec_as_u8)]
    pub fn as_u8(self) -> (r: u8)
        ensures
            r == self.spec_as_u8(),
    {
        match self {
            WorkMode::Open => 0x00,
            WorkMode::Vfoc => 0x01,
            WorkMode::Uart => 0x02,
        }
    }
}

/// Enable (EN) pin logic configuration.
#[derive(Copy, Clone, Debug, PartialEq, Eq, Structural)]
pub enum EnLogic {
    /// Active low.
    Low,
    /// Active high.
    High,
    /// Motor is always enabled.
    AlwaysOn,
}

impl EnLogic {
    /// Protocol byte for this enable logic.
    pub open spec fn spec_as_u8(self) -> u8 {
        match self {
            EnLogic::Low => 0x00,
            EnLogic::High => 0x01,
            EnLogic::AlwaysOn => 0x02,
        }
    }

    /// Protocol byte for this enable logic.
    #[verifier::when_used_as_spec(spec_as_u8)]
    pub fn as_u8(self) -> (r: u8)
        ensures
            r == self.spec_as_u8(),
    {
        match self {
            EnLogic::Low => 0x00,
            EnLogic::High => 0x01,
            EnLogic::AlwaysOn => 0x02,
        }
    }
}

/// UART baud rate settings.
#[derive(Copy, Clone, Debug, PartialEq, Eq, Structural)]
pub enum BaudRate {
    /// 9600 bps.
    Baud9600,
    /// 19200 bps.
    Baud19200,
    /// 25000 bps.
    Baud25000,
    /// 38400 bps.
    Baud38400,
    /// 57600 bps.
    Baud57600,
    /// 115200 bps.
    Baud115200,
}

impl BaudRate {
    /// Protocol byte for this baud rate.
    pub open spec fn spec_as_u8(self) -> u8 {
        match self {
            BaudRate::Baud9600 => 0x01,
            BaudRate::Baud19200 => 0x02,
            BaudRate::Baud25000 => 0x03,
            BaudRate::Baud38400 => 0x04,
            BaudRate::Baud57600 => 0x05,
            BaudRate::Baud115200 => 0x06,
        }
    }

    /// Protocol byte for this baud rate.
    #[verifier::when_used_as_spec(spec_as_u8)]
    pub fn as_u8(self) -> (r: u8)
        ensures
            r == self.spec_as_u8(),
    {
        match self {
            BaudRate::Baud9600 => 0x01,
            BaudRate::Baud19200 => 0x02,
            BaudRate::Baud25000 => 0x03,
            BaudRate::Baud38400 => 0x04,
            BaudRate::Baud57600 => 0x05,
            BaudRate::Baud115200 => 0x06,
        }
    }
}

/// Return-to-zero mode settings.
#[derive(Copy, Clone, Debug, PartialEq, Eq, Structural)]
pub enum ZeroMode {
    /// Return to zero disabled.
    Disable,
    /// Direction-based return to zero.
    DirMode,
    /// Near-point-based return to zero.
    NearMode,
}

impl ZeroMode {
    /// Protocol byte for this return-to-zero mode.
    pub open spec fn spec_as_u8(self) -> u8 {
        match self {
            ZeroMode::Disable => 0x00,
            ZeroMode::DirMode => 0x01,
            ZeroMode::NearMode => 0x02,
        }
    }

    /// Protocol byte for this return-to-zero mode.
    #[verifier::when_used_as_spec(spec_as_u8)]
    pub fn as_u8(self) -> (r: u8)
        ensures
            r == self.spec_as_u8(),
    {
        match self {
            ZeroMode::Disable => 0x00,
            ZeroMode::DirMode => 0x01,
            ZeroMode::NearMode => 0x02,
        }
    }
}

/// Save/Clear status operation.
#[derive(Copy, Clone, Debug, PartialEq, Eq, Structural)]
pub enum SaveClearStatus {
    /// Save the current status.
    Save,
    /// Clear the saved status.
    Clear,
}

impl SaveClearStatus {
    /// Protocol byte for this operation.
    pub open spec fn spec_as_u8(self) -> u8 {
        match self {
            SaveClearStatus::Save => 0xC8,
            SaveClearStatus::Clear => 0xCA,
        }
    }

    /// Protocol byte for this operation.
    #[verifier::when_used_as_spec(spec_as_u8)]
    pub fn as_u8(self) -> (r: u8)
        ensures
            r == self.spec_as_u8(),
    {
        match self {
            SaveClearStatus::Save => 0xC8,
            SaveClearStatus::Clear => 0xCA,
        }
    }
}

/// Motor shaft status.
#[derive(Copy, Clone, Debug, PartialEq, Eq, Structural)]
pub enum ShaftStatus {
    /// Motor is blocked (resistance detected).
    Blocked,
    /// Motor is unblocked (running freely).
    Unblocked,
    /// Error reading status.
    Error,
}

impl ShaftStatus {
    /// Protocol byte for this shaft status.
    pub open spec fn spec_as_u8(self) -> u8 {
        match self {
            ShaftStatus::Blocked => 0x01,
            ShaftStatus::Unblocked => 0x02,
            ShaftStatus::Error => 0x00,
        }
    }

    /// Protocol byte for this shaft status.
    #[verifier::when_used_as_spec(spec_as_u8)]
    pub fn as_u8(self) -> (r: u8)
        ensures
            r == self.spec_as_u8(),
    {
        match self {
            ShaftStatus::Blocked => 0x01,
            ShaftStatus::Unblocked => 0x02,
            ShaftStatus::Error => 0x00,
        }
    }
}

/// Rotation direction configuration.
#[derive(Copy, Clone, Debug, PartialEq, Eq, Structural)]
pub enum RotationDirection {
    /// Clockwise rotation (CW).
    Clockwise,
    /// Counter-clockwise rotation (CCW).
    CounterClockwise,
}

impl RotationDirection {
    /// Protocol byte for this direction in configuration commands.
    pub open spec fn spec_as_u8(self) -> u8 {
        match self {
            RotationDirection::Clockwise => 0x00,
            RotationDirection::CounterClockwise => 0x01,
        }
    }

    /// Protocol byte for this direction in configuration commands.
    #[verifier::when_used_as_spec(spec_as_u8)]
    pub fn as_u8(self) -> (r: u8)
        ensures
            r == self.spec_as_u8(),
    {
        match self {
            RotationDirection::Clockwise => 0x00,
            RotationDirection::CounterClockwise => 0x01,
        }
    }

    /// High bit OR'd into the speed byte of run commands.
    pub open spec fn spec_speed_mask(self) -> u8 {
        match self {
            RotationDirection::Clockwise => 0x00,
            RotationDirection::CounterClockwise => 0x80,
        }
    }

    /// High bit OR'd into the speed byte of run commands.
    #[verifier::when_used_as_spec(spec_speed_mask)]
    pub fn speed_mask(self) -> (r: u8)
        ensures
            r == self.spec_speed_mask(),
    {
        match self {
            RotationDirection::Clockwise => 0x00,
            RotationDirection::CounterClockwise => 0x80,
        }
    }
}

} // verus!
