//! The state that the tasks share, and what commands, storage results and
//! voltage faults do to it.

use crate::calibration::CalibrationResult;
use crate::can_protocol::MotorStatus;
use crate::commands::CanCommand;
use crate::config_storage::{
    default_config, EepromError, StoredConfig, DEFAULT_SPEED_KI, DEFAULT_SPEED_KP,
};
use crate::control_mode::ControlMode;
use crate::voltage_monitor::VoltageMonitorState;
use vstd::prelude::*;

verus! {

/// Target speed at start, 2000 RPM.
pub const INITIAL_TARGET_SPEED: u32 = 0x44FA_0000;

/// Calibration torque at start, in percent.
pub const INITIAL_CALIBRATION_TORQUE: u8 = 10;

/// What the motor control runs on.
#[derive(Clone, Copy, Debug)]
pub struct MotorContext {
    /// Target speed in RPM, as single-precision bits.
    pub target_speed: u32,
    /// Kp and Ki of the speed controller, as single-precision bits.
    pub pi_gains: (u32, u32),
    /// Whether the motor is enabled.
    pub enabled: bool,
    /// Status for the link.
    pub status: MotorStatus,
    /// Mode of the control.
    pub control_mode: ControlMode,
}

/// Request and result of a calibration.
#[derive(Clone, Copy, Debug, PartialEq, Eq, Structural)]
pub struct CalibrationContext {
    /// A calibration was asked for and has not begun.
    pub request: bool,
    /// Torque to calibrate with, in percent.
    pub torque: u8,
    /// Result of the last calibration.
    pub result: CalibrationResult,
}

/// Voltage and configuration.
#[derive(Clone, Copy, Debug, PartialEq, Eq, Structural)]
pub struct SystemContext {
    /// State of the voltage monitor.
    pub voltage_state: VoltageMonitorState,
    /// The configuration in force.
    pub runtime_config: StoredConfig,
    /// Version of the configuration last loaded.
    pub config_version: u16,
    /// Whether the last storage operation left a valid record.
    pub config_crc_valid: bool,
}

/// All that the tasks share.
#[derive(Clone, Copy, Debug)]
pub struct SharedState {
    pub motor: MotorContext,
    pub calibration: CalibrationContext,
    pub system: SystemContext,
}

/// What a command asks of the configuration store.
#[derive(Clone, Copy, Debug, PartialEq, Eq, Structural)]
pub enum StorageRequest {
    /// Nothing.
    Nothing,
    /// Store this configuration.
    Save { config: StoredConfig },
    /// Load the stored configuration.
    Reload,
    /// Store the defaults and take them.
    Reset,
}

/// The configuration with the result of a calibration entered.
pub open spec fn with_calibration(c: StoredConfig, r: CalibrationResult) -> StoredConfig {
    StoredConfig {
        calibration_electrical_offset: r.electrical_offset,
        calibration_direction_inversed: r.direction_inversed,
        calibration_success: r.success,
        ..c
    }
}

/// The configuration after a command that sets tunables; others leave it.
pub open spec fn config_after(c: StoredConfig, cmd: CanCommand) -> StoredConfig {
    match cmd {
        CanCommand::MotorVoltageParams { max_voltage, v_dc_bus } => StoredConfig {
            max_voltage,
            v_dc_bus,
            ..c
        },
        CanCommand::MotorBasicParams { pole_pairs, max_duty } => StoredConfig {
            pole_pairs,
            max_duty,
            ..c
        },
        CanCommand::HallSensorParams { speed_filter_alpha, hall_angle_offset } => StoredConfig {
            speed_filter_alpha,
            hall_angle_offset,
            ..c
        },
        CanCommand::AngleInterpolation { enable } => StoredConfig {
            enable_angle_interpolation: enable,
            ..c
        },
        CanCommand::OpenLoopRpmParams { initial_rpm, target_rpm } => StoredConfig {
            openloop_initial_rpm: initial_rpm,
            openloop_target_rpm: target_rpm,
            ..c
        },
        CanCommand::OpenLoopAccelDutyParams { acceleration, duty_ratio } => StoredConfig {
            openloop_acceleration: acceleration,
            openloop_duty_ratio: duty_ratio,
            ..c
        },
        CanCommand::PwmConfig { frequency, dead_time } => StoredConfig {
            pwm_frequency: frequency,
            pwm_dead_time: dead_time,
            ..c
        },
        CanCommand::CanConfig { bitrate } => StoredConfig { can_bitrate: bitrate, ..c },
        CanCommand::ControlTiming { control_period_us } => StoredConfig { control_period_us, ..c },
        _ => c,
    }
}

/// The motor context after a command.
pub open spec fn motor_after(m: MotorContext, cmd: CanCommand) -> MotorContext {
    match cmd {
        CanCommand::SetSpeed { speed_rpm } => MotorContext { target_speed: speed_rpm, ..m },
        CanCommand::SetPiGains { kp, ki } => MotorContext { pi_gains: (kp, ki), ..m },
        CanCommand::Enable { enable } => MotorContext { enabled: enable, ..m },
        CanCommand::EmergencyStop => MotorContext { enabled: false, target_speed: 0, ..m },
        _ => m,
    }
}

/// The shared state after a command, and what the command asks of the
/// store. Malformed and unknown frames change nothing.
pub open spec fn after_command(s: SharedState, cmd: CanCommand) -> (SharedState, StorageRequest) {
    (
        SharedState {
            motor: motor_after(s.motor, cmd),
            calibration: CalibrationContext {
                request: s.calibration.request || cmd == CanCommand::StartCalibration,
                ..s.calibration
            },
            system: SystemContext {
                runtime_config: config_after(s.system.runtime_config, cmd),
                ..s.system
            },
        },
        match cmd {
            CanCommand::SaveConfig => StorageRequest::Save {
                config: with_calibration(s.system.runtime_config, s.calibration.result),
            },
            CanCommand::ReloadConfig => StorageRequest::Reload,
            CanCommand::ResetConfig => StorageRequest::Reset,
            _ => StorageRequest::Nothing,
        },
    )
}

/// The shared state after a configuration was loaded, or reset to the
/// defaults, with result `loaded`.
pub open spec fn after_load(s: SharedState, loaded: Result<StoredConfig, EepromError>) -> SharedState {
    match loaded {
        Ok(c) => SharedState {
            motor: MotorContext { pi_gains: (c.speed_kp, c.speed_ki), ..s.motor },
            system: SystemContext {
                runtime_config: c,
                config_version: c.version,
                config_crc_valid: true,
                ..s.system
            },
            ..s
        },
        Err(_) => SharedState {
            system: SystemContext { config_crc_valid: false, ..s.system },
            ..s
        },
    }
}

/// The shared state after the voltage monitor reported `v`: a fault on an
/// enabled motor disables it and zeroes the target speed.
pub open spec fn after_voltage(s: SharedState, v: VoltageMonitorState) -> SharedState {
    let fault = v.overvoltage || v.undervoltage;
    SharedState {
        motor: if fault && s.motor.enabled {
            MotorContext { enabled: false, target_speed: 0, ..s.motor }
        } else {
            s.motor
        },
        system: SystemContext { voltage_state: v, ..s.system },
        ..s
    }
}


/// The motor context at start: enabled, in open loop, at the initial target
/// speed and the default gains.
pub open spec fn initial_motor() -> MotorContext {
    MotorContext {
        target_speed: INITIAL_TARGET_SPEED,
        pi_gains: (DEFAULT_SPEED_KP, DEFAULT_SPEED_KI),
        enabled: true,
        status: MotorStatus { speed_rpm: 0, electrical_angle: 0 },
        control_mode: ControlMode::OpenLoop,
    }
}

impl MotorContext {
    /// The motor context at start.
    pub fn new() -> (m: Self)
        ensures
            m == initial_motor(),
    {
        MotorContext {
            target_speed: INITIAL_TARGET_SPEED,
            pi_gains: (DEFAULT_SPEED_KP, DEFAULT_SPEED_KI),
            enabled: true,
            status: MotorStatus::new(),
            control_mode: ControlMode::OpenLoop,
        }
    }
}

impl CalibrationContext {
    /// No request, no result.
    pub fn new() -> (c: Self)
        ensures
            c == (CalibrationContext {
                request: false,
                torque: INITIAL_CALIBRATION_TORQUE,
                result: CalibrationResult {
                    electrical_offset: 0,
                    direction_inversed: false,
                    success: false,
                },
            }),
    {
        CalibrationContext {
            request: false,
            torque: INITIAL_CALIBRATION_TORQUE,
            result: CalibrationResult::new(),
        }
    }
}

impl SystemContext {
    /// The defaults, not yet validated against the store.
    pub fn new() -> (s: Self)
        ensures
            s == (SystemContext {
                voltage_state: VoltageMonitorState {
                    voltage: 0,
                    overvoltage: false,
                    undervoltage: false,
                },
                runtime_config: default_config(),
                config_version: 0,
                config_crc_valid: false,
            }),
    {
        SystemContext {
            voltage_state: VoltageMonitorState::new(),
            runtime_config: StoredConfig::default(),
            config_version: 0,
            config_crc_valid: false,
        }
    }
}

impl SharedState {
    /// The shared state at start.
    pub fn new() -> (s: Self)
        ensures
            s.motor == initial_motor(),
            s.calibration.request == false,
            s.calibration.torque == INITIAL_CALIBRATION_TORQUE,
            s.calibration.result == (CalibrationResult {
                electrical_offset: 0,
                direction_inversed: false,
                success: false,
            }),
            s.system.runtime_config == default_config(),
            s.system.config_version == 0,
            !s.system.config_crc_valid,
            s.system.voltage_state == (VoltageMonitorState {
                voltage: 0,
                overvoltage: false,
                undervoltage: false,
            }),
    {
        SharedState {
            motor: MotorContext::new(),
            calibration: CalibrationContext::new(),
            system: SystemContext::new(),
        }
    }

    /// Applies a received command. Returns what it asks of the store.
    pub fn apply_command(&mut self, cmd: CanCommand) -> (req: StorageRequest)
        ensures
            (*final(self), req) == after_command(*old(self), cmd),
    {
        match cmd {
            CanCommand::SetSpeed { speed_rpm } => {
                self.motor.target_speed = speed_rpm;
            },
            CanCommand::SetPiGains { kp, ki } => {
                self.motor.pi_gains = (kp, ki);
            },
            CanCommand::Enable { enable } => {
                self.motor.enabled = enable;
            },
            CanCommand::StartCalibration => {
                self.calibration.request = true;
            },
            CanCommand::SaveConfig => {
                let mut config = self.system.runtime_config;
                config.calibration_electrical_offset = self.calibration.result.electrical_offset;
                config.calibration_direction_inversed = self.calibration.result.direction_inversed;
                config.calibration_success = self.calibration.result.success;
                return StorageRequest::Save { config };
            },
            CanCommand::ReloadConfig => {
                return StorageRequest::Reload;
            },
            CanCommand::ResetConfig => {
                return StorageRequest::Reset;
            },
            CanCommand::MotorVoltageParams { max_voltage, v_dc_bus } => {
                self.system.runtime_config.max_voltage = max_voltage;
                self.system.runtime_config.v_dc_bus = v_dc_bus;
            },
            CanCommand::MotorBasicParams { pole_pairs, max_duty } => {
                self.system.runtime_config.pole_pairs = pole_pairs;
                self.system.runtime_config.max_duty = max_duty;
            },
            CanCommand::HallSensorParams { speed_filter_alpha, hall_angle_offset } => {
                self.system.runtime_config.speed_filter_alpha = speed_filter_alpha;
                self.system.runtime_config.hall_angle_offset = hall_angle_offset;
            },
            CanCommand::AngleInterpolation { enable } => {
                self.system.runtime_config.enable_angle_interpolation = enable;
            },
            CanCommand::OpenLoopRpmParams { initial_rpm, target_rpm } => {
                self.system.runtime_config.openloop_initial_rpm = initial_rpm;
                self.system.runtime_config.openloop_target_rpm = target_rpm;
            },
            CanCommand::OpenLoopAccelDutyParams { acceleration, duty_ratio } => {
                self.system.runtime_config.openloop_acceleration = acceleration;
                self.system.runtime_config.openloop_duty_ratio = duty_ratio;
            },
            CanCommand::PwmConfig { frequency, dead_time } => {
                self.system.runtime_config.pwm_frequency = frequency;
                self.system.runtime_config.pwm_dead_time = dead_time;
            },
            CanCommand::CanConfig { bitrate } => {
                self.system.runtime_config.can_bitrate = bitrate;
            },
            CanCommand::ControlTiming { control_period_us } => {
                self.system.runtime_config.control_period_us = control_period_us;
            },
            CanCommand::EmergencyStop => {
                self.motor.enabled = false;
                self.motor.target_speed = 0;
            },
            CanCommand::Malformed => {},
            CanCommand::Unknown => {},
        }
        StorageRequest::Nothing
    }

    /// Takes the result of storing a configuration.
    pub fn save_done(&mut self, stored: Result<(), EepromError>)
        ensures
            *final(self) == (SharedState {
                system: SystemContext { config_crc_valid: stored is Ok, ..old(self).system },
                ..*old(self)
            }),
    {
        self.system.config_crc_valid = stored.is_ok();
    }

    /// Takes the result of loading the stored configuration, or of
    /// resetting it to the defaults.
    pub fn load_done(&mut self, loaded: Result<StoredConfig, EepromError>)
        ensures
            *final(self) == after_load(*old(self), loaded),
    {
        match loaded {
            Ok(c) => {
                self.system.runtime_config = c;
                self.system.config_version = c.version;
                self.system.config_crc_valid = true;
                self.motor.pi_gains = (c.speed_kp, c.speed_ki);
            },
            Err(_) => {
                self.system.config_crc_valid = false;
            },
        }
    }

    /// Takes a report of the voltage monitor.
    pub fn voltage_update(&mut self, v: VoltageMonitorState)
        ensures
            *final(self) == after_voltage(*old(self), v),
    {
        self.system.voltage_state = v;
        if !v.is_voltage_ok() && self.motor.enabled {
            self.motor.enabled = false;
            self.motor.target_speed = 0;
        }
    }
}

/// A frame that is dropped, for its length or its identifier, changes
/// neither the shared state nor the store.
pub proof fn lemma_dropped_frame_changes_nothing(s: SharedState, cmd: CanCommand)
    requires
        cmd == CanCommand::Malformed || cmd == CanCommand::Unknown,
    ensures
        after_command(s, cmd) == (s, StorageRequest::Nothing),
{
}

/// After an emergency stop the motor is disabled and its target speed is
/// zero, whatever the state was.
pub proof fn lemma_emergency_stop(s: SharedState)
    ensures
        !after_command(s, CanCommand::EmergencyStop).0.motor.enabled,
        after_command(s, CanCommand::EmergencyStop).0.motor.target_speed == 0,
{
}

} // verus!
