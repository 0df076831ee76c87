use bldc_foc::calibration::CalibrationResult;
use bldc_foc::can_ids::{self, FrameId};
use bldc_foc::can_protocol::{
    encode_control_timing, encode_motor_basic_params, encode_openloop_accel_duty_params,
    encode_pi_gains, encode_pwm_config, encode_speed_command,
};
use bldc_foc::commands::{decode_command, CanCommand};
use bldc_foc::config_storage::{EepromError, StoredConfig};
use bldc_foc::control_mode::ControlMode;
use bldc_foc::state::{
    CalibrationContext, MotorContext, SharedState, StorageRequest, SystemContext,
};
use bldc_foc::voltage_monitor::VoltageMonitorState;

#[test]
fn frames_are_told_apart_by_identifier() {
    let speed = 1234.5f32.to_bits();
    assert_eq!(
        decode_command(can_ids::SPEED_CMD, &encode_speed_command(speed)),
        CanCommand::SetSpeed { speed_rpm: speed }
    );
    assert_eq!(
        decode_command(0x101, &encode_pi_gains(1, 2)),
        CanCommand::SetPiGains { kp: 1, ki: 2 }
    );
    assert_eq!(decode_command(0x102, &[0]), CanCommand::Enable { enable: false });
    assert_eq!(decode_command(0x102, &[9]), CanCommand::Enable { enable: true });
    assert_eq!(decode_command(0x106, &[]), CanCommand::StartCalibration);
    assert_eq!(decode_command(0x106, &[20]), CanCommand::StartCalibration);
    assert_eq!(decode_command(0x103, &[]), CanCommand::SaveConfig);
    assert_eq!(decode_command(0x104, &[]), CanCommand::ReloadConfig);
    assert_eq!(decode_command(0x105, &[]), CanCommand::ResetConfig);
    assert_eq!(
        decode_command(0x110, &encode_pi_gains(3, 4)),
        CanCommand::MotorVoltageParams { max_voltage: 3, v_dc_bus: 4 }
    );
    assert_eq!(
        decode_command(0x111, &encode_motor_basic_params(7, 1000)),
        CanCommand::MotorBasicParams { pole_pairs: 7, max_duty: 1000 }
    );
    assert_eq!(
        decode_command(0x112, &encode_pi_gains(5, 6)),
        CanCommand::HallSensorParams { speed_filter_alpha: 5, hall_angle_offset: 6 }
    );
    assert_eq!(decode_command(0x113, &[1]), CanCommand::AngleInterpolation { enable: true });
    assert_eq!(
        decode_command(0x120, &encode_pi_gains(7, 8)),
        CanCommand::OpenLoopRpmParams { initial_rpm: 7, target_rpm: 8 }
    );
    assert_eq!(
        decode_command(0x121, &encode_openloop_accel_duty_params(9, 70)),
        CanCommand::OpenLoopAccelDutyParams { acceleration: 9, duty_ratio: 70 }
    );
    assert_eq!(
        decode_command(0x130, &encode_pwm_config(20000, 5)),
        CanCommand::PwmConfig { frequency: 20000, dead_time: 5 }
    );
    assert_eq!(
        decode_command(0x140, &encode_speed_command(500000)),
        CanCommand::CanConfig { bitrate: 500000 }
    );
    assert_eq!(
        decode_command(0x150, &encode_control_timing(250)),
        CanCommand::ControlTiming { control_period_us: 250 }
    );
    assert_eq!(decode_command(0x000, &[]), CanCommand::EmergencyStop);
    assert_eq!(decode_command(0x000, &[1, 2, 3, 4, 5, 6, 7, 8]), CanCommand::EmergencyStop);
}

#[test]
fn short_and_unknown_frames_are_dropped() {
    for id in [0x100u32, 0x101, 0x102, 0x110, 0x111, 0x112, 0x113, 0x120, 0x121, 0x130, 0x140, 0x150] {
        assert_eq!(decode_command(id, &[]), CanCommand::Malformed);
    }
    assert_eq!(decode_command(0x100, &[0; 3]), CanCommand::Malformed);
    assert_eq!(decode_command(0x121, &[0; 5]), CanCommand::Malformed);
    for id in [0x001u32, 0x107, 0x200, 0x201, 0x202, 0x203, 0x7FF, 0x1FFF_FFFF] {
        assert_eq!(decode_command(id, &[0; 8]), CanCommand::Unknown);
    }
    let mut s = SharedState::new();
    let before = s;
    assert_eq!(s.apply_command(CanCommand::Malformed), StorageRequest::Nothing);
    assert_eq!(s.apply_command(CanCommand::Unknown), StorageRequest::Nothing);
    assert_eq!(s.motor.target_speed, before.motor.target_speed);
    assert_eq!(s.motor.enabled, before.motor.enabled);
    assert_eq!(s.system, before.system);
    assert_eq!(s.calibration, before.calibration);
}

#[test]
fn shared_state_at_start() {
    let m = MotorContext::new();
    assert_eq!(f32::from_bits(m.target_speed), 2000.0);
    assert_eq!((f32::from_bits(m.pi_gains.0), f32::from_bits(m.pi_gains.1)), (0.5, 0.05));
    assert!(m.enabled);
    assert_eq!(m.control_mode, ControlMode::OpenLoop);
    let c = CalibrationContext::new();
    assert_eq!(c, CalibrationContext { request: false, torque: 10, result: CalibrationResult::new() });
    let s = SystemContext::new();
    assert_eq!(s.runtime_config, StoredConfig::default());
    assert_eq!(s.config_version, 0);
    assert!(!s.config_crc_valid);
    assert!(s.voltage_state.is_voltage_ok());
}

#[test]
fn commands_change_the_shared_state() {
    let mut s = SharedState::new();
    s.apply_command(CanCommand::SetSpeed { speed_rpm: 77 });
    assert_eq!(s.motor.target_speed, 77);
    s.apply_command(CanCommand::SetPiGains { kp: 1, ki: 2 });
    assert_eq!(s.motor.pi_gains, (1, 2));
    s.apply_command(CanCommand::Enable { enable: false });
    assert!(!s.motor.enabled);
    s.apply_command(CanCommand::Enable { enable: true });
    assert!(s.motor.enabled);
    assert_eq!(s.apply_command(CanCommand::StartCalibration), StorageRequest::Nothing);
    assert!(s.calibration.request);
    s.apply_command(CanCommand::MotorVoltageParams { max_voltage: 3, v_dc_bus: 4 });
    s.apply_command(CanCommand::MotorBasicParams { pole_pairs: 7, max_duty: 1000 });
    s.apply_command(CanCommand::HallSensorParams { speed_filter_alpha: 5, hall_angle_offset: 6 });
    s.apply_command(CanCommand::AngleInterpolation { enable: false });
    s.apply_command(CanCommand::OpenLoopRpmParams { initial_rpm: 8, target_rpm: 9 });
    s.apply_command(CanCommand::OpenLoopAccelDutyParams { acceleration: 10, duty_ratio: 11 });
    s.apply_command(CanCommand::PwmConfig { frequency: 12, dead_time: 13 });
    s.apply_command(CanCommand::CanConfig { bitrate: 14 });
    s.apply_command(CanCommand::ControlTiming { control_period_us: 15 });
    let expected = StoredConfig {
        max_voltage: 3,
        v_dc_bus: 4,
        pole_pairs: 7,
        max_duty: 1000,
        speed_filter_alpha: 5,
        hall_angle_offset: 6,
        enable_angle_interpolation: false,
        openloop_initial_rpm: 8,
        openloop_target_rpm: 9,
        openloop_acceleration: 10,
        openloop_duty_ratio: 11,
        pwm_frequency: 12,
        pwm_dead_time: 13,
        can_bitrate: 14,
        control_period_us: 15,
        ..StoredConfig::default()
    };
    assert_eq!(s.system.runtime_config, expected);
    s.apply_command(CanCommand::EmergencyStop);
    assert!(!s.motor.enabled);
    assert_eq!(s.motor.target_speed, 0.0f32.to_bits());
}

#[test]
fn saving_enters_the_calibration_result() {
    let mut s = SharedState::new();
    s.calibration.result =
        CalibrationResult { electrical_offset: 99, direction_inversed: true, success: true };
    let req = s.apply_command(CanCommand::SaveConfig);
    let expected = StoredConfig {
        calibration_electrical_offset: 99,
        calibration_direction_inversed: true,
        calibration_success: true,
        ..StoredConfig::default()
    };
    assert_eq!(req, StorageRequest::Save { config: expected });
    assert_eq!(s.system.runtime_config, StoredConfig::default());
    s.save_done(Ok(()));
    assert!(s.system.config_crc_valid);
    s.save_done(Err(EepromError::FlashWriteError));
    assert!(!s.system.config_crc_valid);
    assert_eq!(s.apply_command(CanCommand::ReloadConfig), StorageRequest::Reload);
    assert_eq!(s.apply_command(CanCommand::ResetConfig), StorageRequest::Reset);
}

#[test]
fn a_loaded_configuration_sets_gains_and_version() {
    let mut s = SharedState::new();
    let loaded = StoredConfig { speed_kp: 21, speed_ki: 22, version: 1, pole_pairs: 4, ..StoredConfig::default() };
    s.load_done(Ok(loaded));
    assert_eq!(s.system.runtime_config, loaded);
    assert_eq!(s.system.config_version, 1);
    assert!(s.system.config_crc_valid);
    assert_eq!(s.motor.pi_gains, (21, 22));
    s.load_done(Err(EepromError::CrcMismatch));
    assert!(!s.system.config_crc_valid);
    assert_eq!(s.system.runtime_config, loaded);
    assert_eq!(s.motor.pi_gains, (21, 22));
}

#[test]
fn a_voltage_fault_disables_the_motor() {
    let mut s = SharedState::new();
    let fine = VoltageMonitorState { voltage: 24.0f32.to_bits(), overvoltage: false, undervoltage: false };
    s.voltage_update(fine);
    assert!(s.motor.enabled);
    assert_eq!(f32::from_bits(s.motor.target_speed), 2000.0);
    assert_eq!(s.system.voltage_state, fine);
    let low = VoltageMonitorState { voltage: 8.0f32.to_bits(), overvoltage: false, undervoltage: true };
    assert!(!low.is_voltage_ok());
    s.voltage_update(low);
    assert!(!s.motor.enabled);
    assert_eq!(s.motor.target_speed, 0);
    let high = VoltageMonitorState { voltage: 31.0f32.to_bits(), overvoltage: true, undervoltage: false };
    assert!(!high.is_voltage_ok());
    let mut s = SharedState::new();
    s.motor.enabled = false;
    s.motor.target_speed = 5;
    s.voltage_update(high);
    assert_eq!(s.motor.target_speed, 5);
    assert_eq!(VoltageMonitorState::new().voltage, 0);
}

#[test]
fn frame_identifiers() {
    assert_eq!(FrameId::standard(0x200), Some(FrameId::Standard(0x200)));
    assert_eq!(FrameId::standard(0x7FF), Some(FrameId::Standard(0x7FF)));
    assert_eq!(FrameId::standard(0x800), None);
    assert_eq!(FrameId::extended(0x1FFF_FFFF), Some(FrameId::Extended(0x1FFF_FFFF)));
    assert_eq!(FrameId::extended(0x2000_0000), None);
    assert_eq!(FrameId::Standard(0x102).as_raw(), can_ids::ENABLE_CMD);
    assert_eq!(FrameId::Extended(0x150).as_raw(), can_ids::CONTROL_TIMING);
    for id in [can_ids::STATUS, can_ids::VOLTAGE_STATUS, can_ids::CONFIG_STATUS, can_ids::CALIBRATION_STATUS] {
        assert_eq!(FrameId::standard(id as u16).map(|f| f.as_raw()), Some(id));
    }
    let ids = embedded_can::StandardId::new(0x203).unwrap();
    assert_eq!(FrameId::standard(ids.as_raw()), Some(FrameId::Standard(0x203)));
    assert!(embedded_can::StandardId::new(0x800).is_none());
    assert!(embedded_can::ExtendedId::new(0x2000_0000).is_none());
}
