//! Commands of the link: which command a frame is, and what it does to the
//! state that the tasks share.

use crate::can_ids::{
    ANGLE_INTERPOLATION, CAN_CONFIG, CONTROL_TIMING, EMERGENCY_STOP, ENABLE_CMD,
    HALL_SENSOR_PARAMS, MOTOR_BASIC_PARAMS, MOTOR_VOLTAGE_PARAMS, OPENLOOP_ACCEL_DUTY_PARAMS,
    OPENLOOP_RPM_PARAMS, PI_GAINS, PWM_CONFIG, RELOAD_CONFIG, RESET_CONFIG, SAVE_CONFIG,
    SPEED_CMD, START_CALIBRATION,
};
use crate::can_protocol::{
    byte_half_of, flag_of, long_of, parse_angle_interpolation, parse_can_config,
    parse_control_timing, parse_enable_command, parse_hall_sensor_params,
    parse_motor_basic_params, parse_motor_voltage_params, parse_openloop_accel_duty_params,
    parse_openloop_rpm_params, parse_pi_gains, parse_pwm_config, parse_speed_command,
    word_half_of, word_of, word_pair_of,
};
use vstd::prelude::*;

verus! {

/// A command received on the link.
#[derive(Clone, Copy, Debug, PartialEq, Eq, Structural)]
pub enum CanCommand {
    SetSpeed { speed_rpm: u32 },
    SetPiGains { kp: u32, ki: u32 },
    Enable { enable: bool },
    StartCalibration,
    SaveConfig,
    ReloadConfig,
    ResetConfig,
    MotorVoltageParams { max_voltage: u32, v_dc_bus: u32 },
    MotorBasicParams { pole_pairs: u8, max_duty: u16 },
    HallSensorParams { speed_filter_alpha: u32, hall_angle_offset: u32 },
    AngleInterpolation { enable: bool },
    OpenLoopRpmParams { initial_rpm: u32, target_rpm: u32 },
    OpenLoopAccelDutyParams { acceleration: u32, duty_ratio: u16 },
    PwmConfig { frequency: u32, dead_time: u16 },
    CanConfig { bitrate: u32 },
    ControlTiming { control_period_us: u64 },
    EmergencyStop,
    /// A known identifier with too short a payload: dropped.
    Malformed,
    /// An identifier that is no command: dropped.
    Unknown,
}

/// The command that a frame with identifier `id` and payload `data` is.
pub open spec fn command_of(id: u32, data: Seq<u8>) -> CanCommand {
    if id == SPEED_CMD {
        match word_of(data) {
            Some(speed_rpm) => CanCommand::SetSpeed { speed_rpm },
            None => CanCommand::Malformed,
        }
    } else if id == PI_GAINS {
        match word_pair_of(data) {
            Some((kp, ki)) => CanCommand::SetPiGains { kp, ki },
            None => CanCommand::Malformed,
        }
    } else if id == ENABLE_CMD {
        match flag_of(data) {
            Some(enable) => CanCommand::Enable { enable },
            None => CanCommand::Malformed,
        }
    } else if id == START_CALIBRATION {
        CanCommand::StartCalibration
    } else if id == SAVE_CONFIG {
        CanCommand::SaveConfig
    } else if id == RELOAD_CONFIG {
        CanCommand::ReloadConfig
    } else if id == RESET_CONFIG {
        CanCommand::ResetConfig
    } else if id == MOTOR_VOLTAGE_PARAMS {
        match word_pair_of(data) {
            Some((max_voltage, v_dc_bus)) => CanCommand::MotorVoltageParams {
                max_voltage,
                v_dc_bus,
            },
            None => CanCommand::Malformed,
        }
    } else if id == MOTOR_BASIC_PARAMS {
        match byte_half_of(data) {
            Some((pole_pairs, max_duty)) => CanCommand::MotorBasicParams { pole_pairs, max_duty },
            None => CanCommand::Malformed,
        }
    } else if id == HALL_SENSOR_PARAMS {
        match word_pair_of(data) {
            Some((speed_filter_alpha, hall_angle_offset)) => CanCommand::HallSensorParams {
                speed_filter_alpha,
                hall_angle_offset,
            },
            None => CanCommand::Malformed,
        }
    } else if id == ANGLE_INTERPOLATION {
        match flag_of(data) {
            Some(enable) => CanCommand::AngleInterpolation { enable },
            None => CanCommand::Malformed,
        }
    } else if id == OPENLOOP_RPM_PARAMS {
        match word_pair_of(data) {
            Some((initial_rpm, target_rpm)) => CanCommand::OpenLoopRpmParams {
                initial_rpm,
                target_rpm,
            },
            None => CanCommand::Malformed,
        }
    } else if id == OPENLOOP_ACCEL_DUTY_PARAMS {
        match word_half_of(data) {
            Some((acceleration, duty_ratio)) => CanCommand::OpenLoopAccelDutyParams {
                acceleration,
                duty_ratio,
            },
            None => CanCommand::Malformed,
        }
    } else if id == PWM_CONFIG {
        match word_half_of(data) {
            Some((frequency, dead_time)) => CanCommand::PwmConfig { frequency, dead_time },
            None => CanCommand::Malformed,
        }
    } else if id == CAN_CONFIG {
        match word_of(data) {
            Some(bitrate) => CanCommand::CanConfig { bitrate },
            None => CanCommand::Malformed,
        }
    } else if id == CONTROL_TIMING {
        match long_of(data) {
            Some(control_period_us) => CanCommand::ControlTiming { control_period_us },
            None => CanCommand::Malformed,
        }
    } else if id == EMERGENCY_STOP {
        CanCommand::EmergencyStop
    } else {
        CanCommand::Unknown
    }
}

/// Tells which command a received frame is.
pub fn decode_command(id: u32, data: &[u8]) -> (cmd: CanCommand)
    ensures
        cmd == command_of(id, data@),
{
    if id == SPEED_CMD {
        match parse_speed_command(data) {
            Some(speed_rpm) => CanCommand::SetSpeed { speed_rpm },
            None => CanCommand::Malformed,
        }
    } else if id == PI_GAINS {
        match parse_pi_gains(data) {
            Some((kp, ki)) => CanCommand::SetPiGains { kp, ki },
            None => CanCommand::Malformed,
        }
    } else if id == ENABLE_CMD {
        match parse_enable_command(data) {
            Some(enable) => CanCommand::Enable { enable },
            None => CanCommand::Malformed,
        }
    } else if id == START_CALIBRATION {
        CanCommand::StartCalibration
    } else if id == SAVE_CONFIG {
        CanCommand::SaveConfig
    } else if id == RELOAD_CONFIG {
        CanCommand::ReloadConfig
    } else if id == RESET_CONFIG {
        CanCommand::ResetConfig
    } else if id == MOTOR_VOLTAGE_PARAMS {
        match parse_motor_voltage_params(data) {
            Some((max_voltage, v_dc_bus)) => CanCommand::MotorVoltageParams {
                max_voltage,
                v_dc_bus,
            },
            None => CanCommand::Malformed,
        }
    } else if id == MOTOR_BASIC_PARAMS {
        match parse_motor_basic_params(data) {
            Some((pole_pairs, max_duty)) => CanCommand::MotorBasicParams { pole_pairs, max_duty },
            None => CanCommand::Malformed,
        }
    } else if id == HALL_SENSOR_PARAMS {
        match parse_hall_sensor_params(data) {
            Some((speed_filter_alpha, hall_angle_offset)) => CanCommand::HallSensorParams {
                speed_filter_alpha,
                hall_angle_offset,
            },
            None => CanCommand::Malformed,
        }
    } else if id == ANGLE_INTERPOLATION {
        match parse_angle_interpolation(data) {
            Some(enable) => CanCommand::AngleInterpolation { enable },
            None => CanCommand::Malformed,
        }
    } else if id == OPENLOOP_RPM_PARAMS {
        match parse_openloop_rpm_params(data) {
            Some((initial_rpm, target_rpm)) => CanCommand::OpenLoopRpmParams {
                initial_rpm,
                target_rpm,
            },
            None => CanCommand::Malformed,
        }
    } else if id == OPENLOOP_ACCEL_DUTY_PARAMS {
        match parse_openloop_accel_duty_params(data) {
            Some((acceleration, duty_ratio)) => CanCommand::OpenLoopAccelDutyParams {
                acceleration,
                duty_ratio,
            },
            None => CanCommand::Malformed,
        }
    } else if id == PWM_CONFIG {
        match parse_pwm_config(data) {
            Some((frequency, dead_time)) => CanCommand::PwmConfig { frequency, dead_time },
            None => CanCommand::Malformed,
        }
    } else if id == CAN_CONFIG {
        match parse_can_config(data) {
            Some(bitrate) => CanCommand::CanConfig { bitrate },
            None => CanCommand::Malformed,
        }
    } else if id == CONTROL_TIMING {
        match parse_control_timing(data) {
            Some(control_period_us) => CanCommand::ControlTiming { control_period_us },
            None => CanCommand::Malformed,
        }
    } else if id == EMERGENCY_STOP {
        CanCommand::EmergencyStop
    } else {
        CanCommand::Unknown
    }
}

} // verus!
