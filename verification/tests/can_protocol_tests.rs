use bldc_foc::can_protocol::{
    decode_calibration_status, decode_config_status, decode_status, decode_voltage_status,
    encode_angle_interpolation, encode_calibration_status, encode_can_config,
    encode_config_status, encode_control_timing, encode_enable_command,
    encode_hall_sensor_params, encode_motor_basic_params, encode_motor_voltage_params,
    encode_openloop_accel_duty_params, encode_openloop_rpm_params, encode_pi_gains,
    encode_pwm_config, encode_speed_command, encode_start_calibration, encode_status,
    encode_voltage_status, parse_angle_interpolation, parse_can_config, parse_control_timing,
    parse_enable_command, parse_hall_sensor_params, parse_motor_basic_params,
    parse_motor_voltage_params, parse_openloop_accel_duty_params, parse_openloop_rpm_params,
    parse_pi_gains, parse_pwm_config, parse_speed_command, CalibrationStatus, MotorStatus,
    VoltageStatus,
};

fn as_f32(bits: u32) -> f32 {
    f32::from_bits(bits)
}

#[test]
fn test_encode_decode_speed_command() {
    let speed = 1234.5f32;
    let encoded = encode_speed_command(speed.to_bits());
    let decoded = parse_speed_command(&encoded);
    assert_eq!(decoded.map(as_f32), Some(speed));
}

#[test]
fn test_encode_decode_pi_gains() {
    let kp = 0.1f32;
    let ki = 0.01f32;
    let encoded = encode_pi_gains(kp.to_bits(), ki.to_bits());
    let decoded = parse_pi_gains(&encoded);
    assert_eq!(decoded.map(|(p, i)| (as_f32(p), as_f32(i))), Some((kp, ki)));
}

#[test]
fn test_encode_decode_enable_command() {
    let enable = true;
    let encoded = encode_enable_command(enable);
    let decoded = parse_enable_command(&encoded);
    assert_eq!(decoded, Some(enable));
}

#[test]
fn protocol_test_encode_decode_status() {
    let speed = 1500.0f32;
    let angle = 2.5f32;
    let encoded = encode_status(speed.to_bits(), angle.to_bits());
    let decoded = decode_status(&encoded).unwrap();
    assert_eq!(as_f32(decoded.speed_rpm), speed);
    assert_eq!(as_f32(decoded.electrical_angle), angle);
}

#[test]
fn protocol_test_encode_decode_voltage_status() {
    let voltage = 24.5f32;
    let overvoltage = true;
    let undervoltage = false;
    let encoded = encode_voltage_status(voltage.to_bits(), overvoltage, undervoltage);
    let decoded = decode_voltage_status(&encoded).unwrap();
    assert_eq!(as_f32(decoded.voltage), voltage);
    assert_eq!(decoded.overvoltage, overvoltage);
    assert_eq!(decoded.undervoltage, undervoltage);
}

#[test]
fn can_protocol_test_parse_speed_command() {
    let speed = 1234.5f32;
    let data = speed.to_le_bytes();
    let parsed = parse_speed_command(&data);
    assert_eq!(parsed.map(as_f32), Some(speed));
}

#[test]
fn can_protocol_test_parse_pi_gains() {
    let kp = 0.1f32;
    let ki = 0.01f32;
    let mut data = [0u8; 8];
    data[0..4].copy_from_slice(&kp.to_le_bytes());
    data[4..8].copy_from_slice(&ki.to_le_bytes());
    let parsed = parse_pi_gains(&data);
    assert_eq!(parsed.map(|(p, i)| (as_f32(p), as_f32(i))), Some((kp, ki)));
}

#[test]
fn can_protocol_test_encode_decode_status() {
    let speed = 1500.0f32;
    let angle = 2.5f32;
    let encoded = encode_status(speed.to_bits(), angle.to_bits());
    let decoded = decode_status(&encoded).unwrap();
    assert_eq!(as_f32(decoded.speed_rpm), speed);
    assert_eq!(as_f32(decoded.electrical_angle), angle);
}

#[test]
fn can_protocol_test_encode_decode_voltage_status() {
    let voltage = 24.5f32;
    let overvoltage = true;
    let undervoltage = false;
    let encoded = encode_voltage_status(voltage.to_bits(), overvoltage, undervoltage);
    let decoded = decode_voltage_status(&encoded).unwrap();
    assert_eq!(as_f32(decoded.voltage), voltage);
    assert_eq!(decoded.overvoltage, overvoltage);
    assert_eq!(decoded.undervoltage, undervoltage);
}

#[test]
fn test_encode_decode_config_status() {
    let version = 1u16;
    let crc_valid = true;
    let encoded = encode_config_status(version, crc_valid);
    let decoded = decode_config_status(&encoded).unwrap();
    assert_eq!(decoded.0, version);
    assert_eq!(decoded.1, crc_valid);
}

#[test]
fn test_encode_decode_motor_voltage_params() {
    let max_voltage = 24.0f32;
    let v_dc_bus = 24.0f32;
    let encoded = encode_motor_voltage_params(max_voltage.to_bits(), v_dc_bus.to_bits());
    let decoded = parse_motor_voltage_params(&encoded).unwrap();
    assert_eq!(as_f32(decoded.0), max_voltage);
    assert_eq!(as_f32(decoded.1), v_dc_bus);
}

#[test]
fn test_encode_decode_motor_basic_params() {
    let pole_pairs = 6u8;
    let max_duty = 100u16;
    let encoded = encode_motor_basic_params(pole_pairs, max_duty);
    let decoded = parse_motor_basic_params(&encoded).unwrap();
    assert_eq!(decoded.0, pole_pairs);
    assert_eq!(decoded.1, max_duty);
}

#[test]
fn test_encode_decode_hall_sensor_params() {
    let alpha = 0.1f32;
    let offset = 1.57f32;
    let encoded = encode_hall_sensor_params(alpha.to_bits(), offset.to_bits());
    let decoded = parse_hall_sensor_params(&encoded).unwrap();
    assert_eq!(as_f32(decoded.0), alpha);
    assert_eq!(as_f32(decoded.1), offset);
}

#[test]
fn test_encode_decode_angle_interpolation() {
    let enable = true;
    let encoded = encode_angle_interpolation(enable);
    let decoded = parse_angle_interpolation(&encoded).unwrap();
    assert_eq!(decoded, enable);
}

#[test]
fn test_encode_decode_openloop_rpm_params() {
    let initial = 100.0f32;
    let target = 500.0f32;
    let encoded = encode_openloop_rpm_params(initial.to_bits(), target.to_bits());
    let decoded = parse_openloop_rpm_params(&encoded).unwrap();
    assert_eq!(as_f32(decoded.0), initial);
    assert_eq!(as_f32(decoded.1), target);
}

#[test]
fn test_encode_decode_openloop_accel_duty_params() {
    let accel = 100.0f32;
    let duty = 50u16;
    let encoded = encode_openloop_accel_duty_params(accel.to_bits(), duty);
    let decoded = parse_openloop_accel_duty_params(&encoded).unwrap();
    assert_eq!(as_f32(decoded.0), accel);
    assert_eq!(decoded.1, duty);
}

#[test]
fn test_encode_decode_pwm_config() {
    let freq = 50000u32;
    let dead_time = 100u16;
    let encoded = encode_pwm_config(freq, dead_time);
    let decoded = parse_pwm_config(&encoded).unwrap();
    assert_eq!(decoded.0, freq);
    assert_eq!(decoded.1, dead_time);
}

#[test]
fn test_encode_decode_can_config() {
    let bitrate = 250000u32;
    let encoded = encode_can_config(bitrate);
    let decoded = parse_can_config(&encoded).unwrap();
    assert_eq!(decoded, bitrate);
}

#[test]
fn test_encode_decode_control_timing() {
    let period = 400u64;
    let encoded = encode_control_timing(period);
    let decoded = parse_control_timing(&encoded).unwrap();
    assert_eq!(decoded, period);
}

#[test]
fn encoders_match_the_standard_little_endian_layout() {
    assert_eq!(encode_speed_command(1234.5f32.to_bits()), 1234.5f32.to_le_bytes());
    assert_eq!(encode_can_config(0x0102_0304), [0x04, 0x03, 0x02, 0x01]);
    assert_eq!(encode_control_timing(0x0102_0304_0506_0708), 0x0102_0304_0506_0708u64.to_le_bytes());
    assert_eq!(encode_motor_basic_params(6, 0x1234), [6, 0x34, 0x12]);
    assert_eq!(encode_pwm_config(50000, 100), [0x50, 0xC3, 0x00, 0x00, 100, 0]);
    assert_eq!(encode_config_status(0xABCD, false), [0xCD, 0xAB, 0]);
    let mut pair = [0u8; 8];
    pair[0..4].copy_from_slice(&0.1f32.to_le_bytes());
    pair[4..8].copy_from_slice(&0.01f32.to_le_bytes());
    assert_eq!(encode_pi_gains(0.1f32.to_bits(), 0.01f32.to_bits()), pair);
}

#[test]
fn voltage_flags_use_bit_0_and_bit_1() {
    assert_eq!(encode_voltage_status(0, false, false)[4], 0);
    assert_eq!(encode_voltage_status(0, true, false)[4], 1);
    assert_eq!(encode_voltage_status(0, false, true)[4], 2);
    assert_eq!(encode_voltage_status(0, true, true)[4], 3);
    let decoded = decode_voltage_status(&[0, 0, 0, 0, 0xFE]).unwrap();
    assert_eq!(decoded, VoltageStatus { voltage: 0, overvoltage: false, undervoltage: true });
}

#[test]
fn short_payloads_are_rejected_and_long_ones_cut() {
    assert_eq!(parse_speed_command(&[1, 2, 3]), None);
    assert_eq!(parse_pi_gains(&[0; 7]), None);
    assert_eq!(parse_enable_command(&[]), None);
    assert_eq!(parse_angle_interpolation(&[]), None);
    assert_eq!(parse_motor_basic_params(&[1, 2]), None);
    assert_eq!(parse_motor_voltage_params(&[0; 7]), None);
    assert_eq!(parse_hall_sensor_params(&[0; 7]), None);
    assert_eq!(parse_openloop_rpm_params(&[0; 7]), None);
    assert_eq!(parse_openloop_accel_duty_params(&[0; 5]), None);
    assert_eq!(parse_pwm_config(&[0; 5]), None);
    assert_eq!(parse_can_config(&[0; 3]), None);
    assert_eq!(parse_control_timing(&[0; 7]), None);
    assert_eq!(decode_status(&[0; 7]), None);
    assert_eq!(decode_voltage_status(&[0; 4]), None);
    assert_eq!(decode_config_status(&[0; 2]), None);
    assert_eq!(decode_calibration_status(&[0; 5]), None);
    assert_eq!(parse_speed_command(&[1, 0, 0, 0, 9, 9]), Some(1));
    assert_eq!(parse_enable_command(&[7, 0]), Some(true));
    assert_eq!(parse_enable_command(&[0, 1]), Some(false));
}

#[test]
fn calibration_status_round_trip() {
    let offset = 1.25f32;
    let encoded = encode_calibration_status(offset.to_bits(), true, false);
    assert_eq!(encoded[4], 1);
    assert_eq!(encoded[5], 0);
    let decoded = decode_calibration_status(&encoded).unwrap();
    assert_eq!(
        decoded,
        CalibrationStatus { electrical_offset: offset.to_bits(), direction_inversed: true, success: false }
    );
    assert_eq!(CalibrationStatus::new().success, false);
    assert_eq!(MotorStatus::new(), MotorStatus { speed_rpm: 0, electrical_angle: 0 });
    assert_eq!(VoltageStatus::new().voltage, 0);
}

#[test]
fn start_calibration_payload_limits_the_torque() {
    assert_eq!(encode_start_calibration(None), Vec::<u8>::new());
    assert_eq!(encode_start_calibration(Some(20)), vec![20]);
    assert_eq!(encode_start_calibration(Some(100)), vec![100]);
    assert_eq!(encode_start_calibration(Some(101)), vec![100]);
    assert_eq!(encode_start_calibration(Some(255)), vec![100]);
}
