//! Payload codecs of the command and status link.
//!
//! All multi-byte fields are little-endian. Single-precision values travel
//! as their bit patterns. A payload that is too short is rejected; bytes
//! beyond a message's length are ignored.

use crate::le_bytes::{get_u16, get_u32, get_u64, le16, le32, le64, put_u16, put_u32, put_u64};
use crate::le_bytes::{lemma_val_of_le16, lemma_val_of_le32, lemma_val_of_le64};
use crate::le_bytes::{val16, val32, val64};
use vstd::prelude::*;

verus! {

/// Speed and electrical angle of the motor, as single-precision bits.
#[derive(Clone, Copy, Debug, PartialEq, Eq, Structural)]
pub struct MotorStatus {
    pub speed_rpm: u32,
    pub electrical_angle: u32,
}

/// Bus voltage, as single-precision bits, and its two fault flags.
#[derive(Clone, Copy, Debug, PartialEq, Eq, Structural)]
pub struct VoltageStatus {
    pub voltage: u32,
    pub overvoltage: bool,
    pub undervoltage: bool,
}

/// Result of the last calibration as reported on the link.
#[derive(Clone, Copy, Debug, PartialEq, Eq, Structural)]
pub struct CalibrationStatus {
    pub electrical_offset: u32,
    pub direction_inversed: bool,
    pub success: bool,
}

impl MotorStatus {
    /// Standstill at angle zero.
    pub fn new() -> (s: Self)
        ensures
            s == (MotorStatus { speed_rpm: 0, electrical_angle: 0 }),
    {
        MotorStatus { speed_rpm: 0, electrical_angle: 0 }
    }
}

impl VoltageStatus {
    /// Zero volts, no fault.
    pub fn new() -> (s: Self)
        ensures
            s == (VoltageStatus { voltage: 0, overvoltage: false, undervoltage: false }),
    {
        VoltageStatus { voltage: 0, overvoltage: false, undervoltage: false }
    }
}

impl CalibrationStatus {
    /// No calibration yet.
    pub fn new() -> (s: Self)
        ensures
            s == (CalibrationStatus {
                electrical_offset: 0,
                direction_inversed: false,
                success: false,
            }),
    {
        CalibrationStatus { electrical_offset: 0, direction_inversed: false, success: false }
    }
}

/// A flag as a byte.
pub open spec fn flag_byte(on: bool) -> u8 {
    if on {
        1
    } else {
        0
    }
}

/// One 32-bit field.
pub open spec fn word_of(data: Seq<u8>) -> Option<u32> {
    if data.len() < 4 {
        None
    } else {
        Some(val32(data, 0) as u32)
    }
}

/// Two 32-bit fields.
pub open spec fn word_pair_of(data: Seq<u8>) -> Option<(u32, u32)> {
    if data.len() < 8 {
        None
    } else {
        Some((val32(data, 0) as u32, val32(data, 4) as u32))
    }
}

/// A 32-bit field followed by a 16-bit field.
pub open spec fn word_half_of(data: Seq<u8>) -> Option<(u32, u16)> {
    if data.len() < 6 {
        None
    } else {
        Some((val32(data, 0) as u32, val16(data, 4) as u16))
    }
}

/// A flag: any non-zero first byte is `true`.
pub open spec fn flag_of(data: Seq<u8>) -> Option<bool> {
    if data.len() < 1 {
        None
    } else {
        Some(data[0] != 0)
    }
}

/// A byte followed by a 16-bit field.
pub open spec fn byte_half_of(data: Seq<u8>) -> Option<(u8, u16)> {
    if data.len() < 3 {
        None
    } else {
        Some((data[0], val16(data, 1) as u16))
    }
}

/// One 64-bit field.
pub open spec fn long_of(data: Seq<u8>) -> Option<u64> {
    if data.len() < 8 {
        None
    } else {
        Some(val64(data, 0) as u64)
    }
}

/// A 16-bit field followed by a flag.
pub open spec fn half_flag_of(data: Seq<u8>) -> Option<(u16, bool)> {
    if data.len() < 3 {
        None
    } else {
        Some((val16(data, 0) as u16, data[2] != 0))
    }
}

/// Flags byte of the voltage status: bit 0 overvoltage, bit 1 undervoltage.
pub open spec fn voltage_flags(overvoltage: bool, undervoltage: bool) -> u8 {
    (flag_byte(overvoltage) + 2 * flag_byte(undervoltage)) as u8
}

/// The voltage status in a payload; flag bits above bit 1 are ignored.
pub open spec fn voltage_status_of(data: Seq<u8>) -> Option<VoltageStatus> {
    if data.len() < 5 {
        None
    } else {
        Some(
            VoltageStatus {
                voltage: val32(data, 0) as u32,
                overvoltage: data[4] as int % 2 == 1,
                undervoltage: (data[4] as int / 2) % 2 == 1,
            },
        )
    }
}

/// The calibration status in a payload.
pub open spec fn calibration_status_of(data: Seq<u8>) -> Option<CalibrationStatus> {
    if data.len() < 6 {
        None
    } else {
        Some(
            CalibrationStatus {
                electrical_offset: val32(data, 0) as u32,
                direction_inversed: data[4] != 0,
                success: data[5] != 0,
            },
        )
    }
}

/// The motor status in a payload.
pub open spec fn motor_status_of(data: Seq<u8>) -> Option<MotorStatus> {
    match word_pair_of(data) {
        Some((speed_rpm, electrical_angle)) => Some(MotorStatus { speed_rpm, electrical_angle }),
        None => None,
    }
}

fn parse_word(data: &[u8]) -> (r: Option<u32>)
    ensures
        r == word_of(data@),
{
    if data.len() < 4 {
        return None;
    }
    Some(get_u32(data, 0))
}

fn parse_word_pair(data: &[u8]) -> (r: Option<(u32, u32)>)
    ensures
        r == word_pair_of(data@),
{
    if data.len() < 8 {
        return None;
    }
    Some((get_u32(data, 0), get_u32(data, 4)))
}

fn parse_word_half(data: &[u8]) -> (r: Option<(u32, u16)>)
    ensures
        r == word_half_of(data@),
{
    if data.len() < 6 {
        return None;
    }
    Some((get_u32(data, 0), get_u16(data, 4)))
}

fn parse_flag(data: &[u8]) -> (r: Option<bool>)
    ensures
        r == flag_of(data@),
{
    if data.len() < 1 {
        return None;
    }
    Some(data[0] != 0)
}

fn encode_word_pair(a: u32, b: u32) -> (r: [u8; 8])
    ensures
        r@ == le32(a) + le32(b),
{
    let x = put_u32(a);
    let y = put_u32(b);
    let r = [x[0], x[1], x[2], x[3], y[0], y[1], y[2], y[3]];
    assert(r@ =~= le32(a) + le32(b));
    r
}

fn encode_word_half(a: u32, b: u16) -> (r: [u8; 6])
    ensures
        r@ == le32(a) + le16(b),
{
    let x = put_u32(a);
    let y = put_u16(b);
    let r = [x[0], x[1], x[2], x[3], y[0], y[1]];
    assert(r@ =~= le32(a) + le16(b));
    r
}

fn encode_flag(on: bool) -> (r: [u8; 1])
    ensures
        r@ == seq![flag_byte(on)],
{
    let r = [if on { 1u8 } else { 0u8 }];
    assert(r@ =~= seq![flag_byte(on)]);
    r
}

/// Target speed in RPM (single-precision bits) from a speed command.
pub fn parse_speed_command(data: &[u8]) -> (r: Option<u32>)
    ensures
        r == word_of(data@),
{
    parse_word(data)
}

/// Kp and Ki (single-precision bits) from a gains command.
pub fn parse_pi_gains(data: &[u8]) -> (r: Option<(u32, u32)>)
    ensures
        r == word_pair_of(data@),
{
    parse_word_pair(data)
}

/// Enable flag from an enable command: any non-zero byte enables.
pub fn parse_enable_command(data: &[u8]) -> (r: Option<bool>)
    ensures
        r == flag_of(data@),
{
    parse_flag(data)
}

/// Maximum voltage and bus voltage (single-precision bits).
pub fn parse_motor_voltage_params(data: &[u8]) -> (r: Option<(u32, u32)>)
    ensures
        r == word_pair_of(data@),
{
    parse_word_pair(data)
}

/// Hall speed filter coefficient and angle offset (single-precision bits).
pub fn parse_hall_sensor_params(data: &[u8]) -> (r: Option<(u32, u32)>)
    ensures
        r == word_pair_of(data@),
{
    parse_word_pair(data)
}

/// Angle interpolation flag: any non-zero byte switches it on.
pub fn parse_angle_interpolation(data: &[u8]) -> (r: Option<bool>)
    ensures
        r == flag_of(data@),
{
    parse_flag(data)
}

/// Open-loop initial and target RPM (single-precision bits).
pub fn parse_openloop_rpm_params(data: &[u8]) -> (r: Option<(u32, u32)>)
    ensures
        r == word_pair_of(data@),
{
    parse_word_pair(data)
}

/// Open-loop acceleration (single-precision bits) and duty in percent.
pub fn parse_openloop_accel_duty_params(data: &[u8]) -> (r: Option<(u32, u16)>)
    ensures
        r == word_half_of(data@),
{
    parse_word_half(data)
}

/// PWM frequency in hertz and dead time.
pub fn parse_pwm_config(data: &[u8]) -> (r: Option<(u32, u16)>)
    ensures
        r == word_half_of(data@),
{
    parse_word_half(data)
}

/// Link bit rate.
pub fn parse_can_config(data: &[u8]) -> (r: Option<u32>)
    ensures
        r == word_of(data@),
{
    parse_word(data)
}

/// Pole pairs and maximum duty.
pub fn parse_motor_basic_params(data: &[u8]) -> (r: Option<(u8, u16)>)
    ensures
        r == byte_half_of(data@),
{
    if data.len() < 3 {
        return None;
    }
    Some((data[0], get_u16(data, 1)))
}

/// Control period in microseconds.
pub fn parse_control_timing(data: &[u8]) -> (r: Option<u64>)
    ensures
        r == long_of(data@),
{
    if data.len() < 8 {
        return None;
    }
    Some(get_u64(data, 0))
}

/// Motor status from a status frame.
pub fn decode_status(data: &[u8]) -> (r: Option<MotorStatus>)
    ensures
        r == motor_status_of(data@),
{
    match parse_word_pair(data) {
        Some((speed_rpm, electrical_angle)) => Some(MotorStatus { speed_rpm, electrical_angle }),
        None => None,
    }
}

/// Configuration version and CRC validity from a status frame.
pub fn decode_config_status(data: &[u8]) -> (r: Option<(u16, bool)>)
    ensures
        r == half_flag_of(data@),
{
    if data.len() < 3 {
        return None;
    }
    Some((get_u16(data, 0), data[2] != 0))
}

/// Calibration result from a status frame.
pub fn decode_calibration_status(data: &[u8]) -> (r: Option<CalibrationStatus>)
    ensures
        r == calibration_status_of(data@),
{
    if data.len() < 6 {
        return None;
    }
    Some(
        CalibrationStatus {
            electrical_offset: get_u32(data, 0),
            direction_inversed: data[4] != 0,
            success: data[5] != 0,
        },
    )
}

/// Voltage status from a status frame.
pub fn decode_voltage_status(data: &[u8]) -> (r: Option<VoltageStatus>)
    ensures
        r == voltage_status_of(data@),
{
    if data.len() < 5 {
        return None;
    }
    let flags = data[4];
    let overvoltage = (flags & 0x01) != 0;
    let undervoltage = (flags & 0x02) != 0;
    proof {
        assert(((flags & 0x01) != 0) == (flags % 2 == 1)) by (bit_vector);
        assert(((flags & 0x02) != 0) == ((flags / 2) % 2 == 1)) by (bit_vector);
    }
    Some(VoltageStatus { voltage: get_u32(data, 0), overvoltage, undervoltage })
}

/// Payload of a speed command.
pub fn encode_speed_command(speed_rpm: u32) -> (r: [u8; 4])
    ensures
        r@ == le32(speed_rpm),
{
    put_u32(speed_rpm)
}

/// Payload of a gains command.
pub fn encode_pi_gains(kp: u32, ki: u32) -> (r: [u8; 8])
    ensures
        r@ == le32(kp) + le32(ki),
{
    encode_word_pair(kp, ki)
}

/// Payload of an enable command.
pub fn encode_enable_command(enable: bool) -> (r: [u8; 1])
    ensures
        r@ == seq![flag_byte(enable)],
{
    encode_flag(enable)
}

/// Payload of a motor status frame.
pub fn encode_status(speed_rpm: u32, electrical_angle: u32) -> (r: [u8; 8])
    ensures
        r@ == le32(speed_rpm) + le32(electrical_angle),
{
    encode_word_pair(speed_rpm, electrical_angle)
}

/// Payload of a voltage limits command.
pub fn encode_motor_voltage_params(max_voltage: u32, v_dc_bus: u32) -> (r: [u8; 8])
    ensures
        r@ == le32(max_voltage) + le32(v_dc_bus),
{
    encode_word_pair(max_voltage, v_dc_bus)
}

/// Payload of a Hall parameters command.
pub fn encode_hall_sensor_params(speed_filter_alpha: u32, hall_angle_offset: u32) -> (r: [u8; 8])
    ensures
        r@ == le32(speed_filter_alpha) + le32(hall_angle_offset),
{
    encode_word_pair(speed_filter_alpha, hall_angle_offset)
}

/// Payload of an angle interpolation command.
pub fn encode_angle_interpolation(enable: bool) -> (r: [u8; 1])
    ensures
        r@ == seq![flag_byte(enable)],
{
    encode_flag(enable)
}

/// Payload of an open-loop speeds command.
pub fn encode_openloop_rpm_params(initial_rpm: u32, target_rpm: u32) -> (r: [u8; 8])
    ensures
        r@ == le32(initial_rpm) + le32(target_rpm),
{
    encode_word_pair(initial_rpm, target_rpm)
}

/// Payload of an open-loop acceleration and duty command.
pub fn encode_openloop_accel_duty_params(acceleration: u32, duty_ratio: u16) -> (r: [u8; 6])
    ensures
        r@ == le32(acceleration) + le16(duty_ratio),
{
    encode_word_half(acceleration, duty_ratio)
}

/// Payload of a PWM configuration command.
pub fn encode_pwm_config(frequency: u32, dead_time: u16) -> (r: [u8; 6])
    ensures
        r@ == le32(frequency) + le16(dead_time),
{
    encode_word_half(frequency, dead_time)
}

/// Payload of a link configuration command.
pub fn encode_can_config(bitrate: u32) -> (r: [u8; 4])
    ensures
        r@ == le32(bitrate),
{
    put_u32(bitrate)
}

/// Payload of a control timing command.
pub fn encode_control_timing(control_period_us: u64) -> (r: [u8; 8])
    ensures
        r@ == le64(control_period_us),
{
    put_u64(control_period_us)
}

/// Payload of a motor basics command.
pub fn encode_motor_basic_params(pole_pairs: u8, max_duty: u16) -> (r: [u8; 3])
    ensures
        r@ == seq![pole_pairs] + le16(max_duty),
{
    let d = put_u16(max_duty);
    let r = [pole_pairs, d[0], d[1]];
    assert(r@ =~= seq![pole_pairs] + le16(max_duty));
    r
}

/// Payload of a configuration status frame.
pub fn encode_config_status(version: u16, crc_valid: bool) -> (r: [u8; 3])
    ensures
        r@ == le16(version) + seq![flag_byte(crc_valid)],
{
    let v = put_u16(version);
    let r = [v[0], v[1], if crc_valid { 1u8 } else { 0u8 }];
    assert(r@ =~= le16(version) + seq![flag_byte(crc_valid)]);
    r
}

/// Payload of a voltage status frame.
pub fn encode_voltage_status(voltage: u32, overvoltage: bool, undervoltage: bool) -> (r: [u8; 5])
    ensures
        r@ == le32(voltage) + seq![voltage_flags(overvoltage, undervoltage)],
{
    let v = put_u32(voltage);
    let mut flags: u8 = 0;
    if overvoltage {
        flags = flags + 1;
    }
    if undervoltage {
        flags = flags + 2;
    }
    let r = [v[0], v[1], v[2], v[3], flags];
    assert(r@ =~= le32(voltage) + seq![voltage_flags(overvoltage, undervoltage)]);
    r
}

/// Payload of a calibration status frame.
pub fn encode_calibration_status(electrical_offset: u32, direction_inversed: bool, success: bool) -> (r:
    [u8; 6])
    ensures
        r@ == le32(electrical_offset) + seq![flag_byte(direction_inversed), flag_byte(success)],
{
    let v = put_u32(electrical_offset);
    let r = [
        v[0],
        v[1],
        v[2],
        v[3],
        if direction_inversed { 1u8 } else { 0u8 },
        if success { 1u8 } else { 0u8 },
    ];
    assert(r@ =~= le32(electrical_offset) + seq![
        flag_byte(direction_inversed),
        flag_byte(success),
    ]);
    r
}

/// Highest torque, in percent, that a start-calibration command carries.
pub const MAX_COMMAND_TORQUE: u8 = 100;

/// Payload of a start-calibration command: empty, or the torque in percent,
/// at most 100.
pub open spec fn start_calibration_payload(torque: Option<u8>) -> Seq<u8> {
    match torque {
        Some(t) => seq![if t > MAX_COMMAND_TORQUE { MAX_COMMAND_TORQUE } else { t }],
        None => Seq::<u8>::empty(),
    }
}

/// Payload of a start-calibration command.
pub fn encode_start_calibration(torque: Option<u8>) -> (r: Vec<u8>)
    ensures
        r@ == start_calibration_payload(torque),
{
    let mut r: Vec<u8> = Vec::new();
    match torque {
        Some(t) => {
            r.push(if t > MAX_COMMAND_TORQUE { MAX_COMMAND_TORQUE } else { t });
        },
        None => {},
    }
    assert(r@ =~= start_calibration_payload(torque));
    r
}


/// A 32-bit field (a speed command, a link bit rate) decodes to the value
/// that was encoded, whatever bytes follow it.
pub proof fn lemma_word_round_trip(x: u32, rest: Seq<u8>)
    ensures
        word_of(le32(x) + rest) == Some(x),
{
    let s = le32(x) + rest;
    assert(s.subrange(0, 4) =~= le32(x));
    lemma_val_of_le32(x, s, 0);
}

/// Two 32-bit fields (PI gains, voltage limits, Hall parameters, open-loop
/// speeds) decode to the values that were encoded.
pub proof fn lemma_word_pair_round_trip(a: u32, b: u32, rest: Seq<u8>)
    ensures
        word_pair_of(le32(a) + le32(b) + rest) == Some((a, b)),
{
    let s = le32(a) + le32(b) + rest;
    assert(s.subrange(0, 4) =~= le32(a));
    assert(s.subrange(4, 8) =~= le32(b));
    lemma_val_of_le32(a, s, 0);
    lemma_val_of_le32(b, s, 4);
}

/// A 32-bit and a 16-bit field (open-loop acceleration and duty, PWM
/// configuration) decode to the values that were encoded.
pub proof fn lemma_word_half_round_trip(a: u32, b: u16, rest: Seq<u8>)
    ensures
        word_half_of(le32(a) + le16(b) + rest) == Some((a, b)),
{
    let s = le32(a) + le16(b) + rest;
    assert(s.subrange(0, 4) =~= le32(a));
    assert(s.subrange(4, 6) =~= le16(b));
    lemma_val_of_le32(a, s, 0);
    lemma_val_of_le16(b, s, 4);
}

/// A flag (motor enable, angle interpolation) decodes to the flag that was
/// encoded.
pub proof fn lemma_flag_round_trip(on: bool, rest: Seq<u8>)
    ensures
        flag_of(seq![flag_byte(on)] + rest) == Some(on),
{
}

/// Pole pairs and maximum duty decode to the values that were encoded.
pub proof fn lemma_byte_half_round_trip(a: u8, b: u16, rest: Seq<u8>)
    ensures
        byte_half_of(seq![a] + le16(b) + rest) == Some((a, b)),
{
    let s = seq![a] + le16(b) + rest;
    assert(s.subrange(1, 3) =~= le16(b));
    lemma_val_of_le16(b, s, 1);
}

/// A control period decodes to the value that was encoded.
pub proof fn lemma_long_round_trip(x: u64, rest: Seq<u8>)
    ensures
        long_of(le64(x) + rest) == Some(x),
{
    let s = le64(x) + rest;
    assert(s.subrange(0, 8) =~= le64(x));
    lemma_val_of_le64(x, s, 0);
}

/// A configuration status decodes to the version and validity that were
/// encoded.
pub proof fn lemma_config_status_round_trip(version: u16, crc_valid: bool, rest: Seq<u8>)
    ensures
        half_flag_of(le16(version) + seq![flag_byte(crc_valid)] + rest) == Some(
            (version, crc_valid),
        ),
{
    let s = le16(version) + seq![flag_byte(crc_valid)] + rest;
    assert(s.subrange(0, 2) =~= le16(version));
    lemma_val_of_le16(version, s, 0);
}

/// A motor status decodes to the speed and angle that were encoded.
pub proof fn lemma_motor_status_round_trip(status: MotorStatus, rest: Seq<u8>)
    ensures
        motor_status_of(le32(status.speed_rpm) + le32(status.electrical_angle) + rest) == Some(
            status,
        ),
{
    lemma_word_pair_round_trip(status.speed_rpm, status.electrical_angle, rest);
}

/// A voltage status decodes to the voltage and the two flags that were
/// encoded.
pub proof fn lemma_voltage_status_round_trip(status: VoltageStatus, rest: Seq<u8>)
    ensures
        voltage_status_of(
            le32(status.voltage) + seq![voltage_flags(status.overvoltage, status.undervoltage)]
                + rest,
        ) == Some(status),
{
    let s = le32(status.voltage) + seq![voltage_flags(status.overvoltage, status.undervoltage)]
        + rest;
    assert(s.subrange(0, 4) =~= le32(status.voltage));
    lemma_val_of_le32(status.voltage, s, 0);
    assert(s[4] == voltage_flags(status.overvoltage, status.undervoltage));
}

/// A calibration status decodes to the result that was encoded.
pub proof fn lemma_calibration_status_round_trip(status: CalibrationStatus, rest: Seq<u8>)
    ensures
        calibration_status_of(
            le32(status.electrical_offset) + seq![
                flag_byte(status.direction_inversed),
                flag_byte(status.success),
            ] + rest,
        ) == Some(status),
{
    let s = le32(status.electrical_offset) + seq![
        flag_byte(status.direction_inversed),
        flag_byte(status.success),
    ] + rest;
    assert(s.subrange(0, 4) =~= le32(status.electrical_offset));
    lemma_val_of_le32(status.electrical_offset, s, 0);
    assert(s[4] == flag_byte(status.direction_inversed));
    assert(s[5] == flag_byte(status.success));
}

} // verus!
