//! Identifiers of the frames on the command and status link.

use vstd::prelude::*;

verus! {

/// Emergency stop, any payload.
pub const EMERGENCY_STOP: u32 = 0x000;

/// Speed command: RPM as a single-precision value, 4 bytes.
pub const SPEED_CMD: u32 = 0x100;

/// PI gains: Kp then Ki, 8 bytes.
pub const PI_GAINS: u32 = 0x101;

/// Motor enable: one byte, zero to disable.
pub const ENABLE_CMD: u32 = 0x102;

/// Save the configuration, no payload.
pub const SAVE_CONFIG: u32 = 0x103;

/// Reload the configuration, no payload.
pub const RELOAD_CONFIG: u32 = 0x104;

/// Reset the configuration to defaults, no payload.
pub const RESET_CONFIG: u32 = 0x105;

/// Start calibration: no payload, or one byte of torque in percent.
pub const START_CALIBRATION: u32 = 0x106;

/// Voltage limits: maximum voltage then bus voltage, 8 bytes.
pub const MOTOR_VOLTAGE_PARAMS: u32 = 0x110;

/// Pole pairs (1 byte) and maximum duty (2 bytes).
pub const MOTOR_BASIC_PARAMS: u32 = 0x111;

/// Hall speed filter coefficient then angle offset, 8 bytes.
pub const HALL_SENSOR_PARAMS: u32 = 0x112;

/// Angle interpolation on or off, 1 byte.
pub const ANGLE_INTERPOLATION: u32 = 0x113;

/// Open-loop initial then target RPM, 8 bytes.
pub const OPENLOOP_RPM_PARAMS: u32 = 0x120;

/// Open-loop acceleration (4 bytes) and duty (2 bytes).
pub const OPENLOOP_ACCEL_DUTY_PARAMS: u32 = 0x121;

/// PWM frequency (4 bytes) and dead time (2 bytes).
pub const PWM_CONFIG: u32 = 0x130;

/// Link bit rate, 4 bytes.
pub const CAN_CONFIG: u32 = 0x140;

/// Control period in microseconds, 8 bytes.
pub const CONTROL_TIMING: u32 = 0x150;

/// Motor status: speed then electrical angle, 8 bytes.
pub const STATUS: u32 = 0x200;

/// Voltage status: voltage (4 bytes) and flags (1 byte).
pub const VOLTAGE_STATUS: u32 = 0x201;

/// Configuration status: version (2 bytes) and CRC validity (1 byte).
pub const CONFIG_STATUS: u32 = 0x202;

/// Calibration status: offset (4 bytes), direction flag, success flag.
pub const CALIBRATION_STATUS: u32 = 0x203;

/// Highest identifier of a standard (11-bit) frame.
pub const MAX_STANDARD_ID: u16 = 0x7FF;

/// Highest identifier of an extended (29-bit) frame.
pub const MAX_EXTENDED_ID: u32 = 0x1FFF_FFFF;

/// Identifier of a frame.
#[derive(Clone, Copy, Debug, PartialEq, Eq, Structural)]
pub enum FrameId {
    /// 11-bit identifier.
    Standard(u16),
    /// 29-bit identifier.
    Extended(u32),
}

impl FrameId {
    /// The identifier as a number, whichever its width.
    pub open spec fn raw_value(self) -> u32 {
        match self {
            FrameId::Standard(raw) => raw as u32,
            FrameId::Extended(raw) => raw,
        }
    }

    /// Whether the identifier fits its width.
    pub open spec fn in_range(self) -> bool {
        match self {
            FrameId::Standard(raw) => raw <= MAX_STANDARD_ID,
            FrameId::Extended(raw) => raw <= MAX_EXTENDED_ID,
        }
    }

    /// A standard identifier, if `raw` fits 11 bits.
    pub fn standard(raw: u16) -> (id: Option<FrameId>)
        ensures
            id == (if raw <= MAX_STANDARD_ID {
                Some(FrameId::Standard(raw))
            } else {
                None
            }),
    {
        if raw <= MAX_STANDARD_ID {
            Some(FrameId::Standard(raw))
        } else {
            None
        }
    }

    /// An extended identifier, if `raw` fits 29 bits.
    pub fn extended(raw: u32) -> (id: Option<FrameId>)
        ensures
            id == (if raw <= MAX_EXTENDED_ID {
                Some(FrameId::Extended(raw))
            } else {
                None
            }),
    {
        if raw <= MAX_EXTENDED_ID {
            Some(FrameId::Extended(raw))
        } else {
            None
        }
    }

    /// The identifier as a number.
    pub fn as_raw(&self) -> (raw: u32)
        ensures
            raw == self.raw_value(),
    {
        match self {
            FrameId::Standard(raw) => *raw as u32,
            FrameId::Extended(raw) => *raw,
        }
    }
}

} // verus!
