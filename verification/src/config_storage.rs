//! The persisted configuration record.
//!
//! A record is the fields below in order, little-endian and without gaps,
//! followed by a checksum over every byte before it. Single-precision
//! tunables are held as their bit patterns.

use crate::le_bytes::{get_u16, get_u32, get_u64, le16, le32, le64, put_u16, put_u32, put_u64};
use crate::le_bytes::{lemma_val_of_le16, lemma_val_of_le32, lemma_val_of_le64};
use crate::le_bytes::{val16, val32, val64};
use vstd::prelude::*;

verus! {

/// Marks a configuration record ("CFG1").
pub const CONFIG_MAGIC: u32 = 0x31474643;

/// Version of the record layout.
pub const CONFIG_VERSION: u16 = 1;

/// Bytes of a record before its checksum.
pub const BODY_SIZE: usize = 72;

/// Bytes of a whole record.
pub const RECORD_SIZE: usize = 76;

/// Bytes of the flash page that holds the record.
pub const FLASH_PAGE_SIZE: usize = 2048;

/// Number of the page that holds the record, the last of the device.
pub const LAST_PAGE_NUMBER: u8 = 63;

/// Address of that page.
pub const LAST_PAGE_START: u32 = 0x0801F800;

/// Default proportional gain, 0.5.
pub const DEFAULT_SPEED_KP: u32 = 0x3F00_0000;

/// Default integral gain, 0.05.
pub const DEFAULT_SPEED_KI: u32 = 0x3D4C_CCCD;

/// Default voltage limit, 24 V.
pub const DEFAULT_MAX_VOLTAGE: u32 = 0x41C0_0000;

/// Default bus voltage, 24 V.
pub const DEFAULT_V_DC_BUS: u32 = 0x41C0_0000;

/// Default pole pairs.
pub const DEFAULT_POLE_PAIRS: u8 = 6;

/// Default control period in microseconds.
pub const DEFAULT_CONTROL_PERIOD_US: u64 = 400;

/// Default maximum duty.
pub const DEFAULT_MAX_DUTY: u16 = 100;

/// Default Hall speed filter coefficient, 0.05.
pub const DEFAULT_SPEED_FILTER_ALPHA: u32 = 0x3D4C_CCCD;

/// Default Hall angle offset, 0.
pub const DEFAULT_HALL_ANGLE_OFFSET: u32 = 0;

/// Default open-loop initial speed, 50 RPM.
pub const DEFAULT_INITIAL_RPM: u32 = 0x4248_0000;

/// Default open-loop target speed, 500 RPM.
pub const DEFAULT_TARGET_RPM: u32 = 0x43FA_0000;

/// Default open-loop acceleration, 50 RPM/s.
pub const DEFAULT_ACCELERATION_RPM_PER_S: u32 = 0x4248_0000;

/// Default open-loop duty in percent.
pub const DEFAULT_DUTY_RATIO: u16 = 80;

/// Default PWM frequency in hertz.
pub const DEFAULT_PWM_FREQUENCY: u32 = 50_000;

/// Default PWM dead time.
pub const DEFAULT_PWM_DEAD_TIME: u16 = 1;

/// Default link bit rate.
pub const DEFAULT_CAN_BITRATE: u32 = 250_000;

/// Why a record could not be loaded or stored.
#[derive(Clone, Copy, Debug, PartialEq, Eq, Structural)]
pub enum EepromError {
    FlashWriteError,
    FlashEraseError,
    FlashReadError,
    CrcMismatch,
    InvalidMagic,
    VersionMismatch,
    InvalidSize,
}

/// The tunables of the drive, as persisted.
#[derive(Clone, Copy, Debug, PartialEq, Eq, Structural)]
pub struct StoredConfig {
    pub magic: u32,
    pub version: u16,
    pub speed_kp: u32,
    pub speed_ki: u32,
    pub max_voltage: u32,
    pub v_dc_bus: u32,
    pub pole_pairs: u8,
    pub max_duty: u16,
    pub speed_filter_alpha: u32,
    pub hall_angle_offset: u32,
    pub enable_angle_interpolation: bool,
    pub calibration_electrical_offset: u32,
    pub calibration_direction_inversed: bool,
    pub calibration_success: bool,
    pub openloop_initial_rpm: u32,
    pub openloop_target_rpm: u32,
    pub openloop_acceleration: u32,
    pub openloop_duty_ratio: u16,
    pub pwm_frequency: u32,
    pub pwm_dead_time: u16,
    pub can_bitrate: u32,
    pub control_period_us: u64,
    pub crc32: u32,
}

/// A flag as the byte it is stored in.
pub open spec fn bool_byte(b: bool) -> u8 {
    if b {
        1
    } else {
        0
    }
}

/// The compiled-in configuration.
pub open spec fn default_config() -> StoredConfig {
    StoredConfig {
        magic: CONFIG_MAGIC,
        version: CONFIG_VERSION,
        speed_kp: DEFAULT_SPEED_KP,
        speed_ki: DEFAULT_SPEED_KI,
        max_voltage: DEFAULT_MAX_VOLTAGE,
        v_dc_bus: DEFAULT_V_DC_BUS,
        pole_pairs: DEFAULT_POLE_PAIRS,
        max_duty: DEFAULT_MAX_DUTY,
        speed_filter_alpha: DEFAULT_SPEED_FILTER_ALPHA,
        hall_angle_offset: DEFAULT_HALL_ANGLE_OFFSET,
        enable_angle_interpolation: true,
        calibration_electrical_offset: 0,
        calibration_direction_inversed: false,
        calibration_success: false,
        openloop_initial_rpm: DEFAULT_INITIAL_RPM,
        openloop_target_rpm: DEFAULT_TARGET_RPM,
        openloop_acceleration: DEFAULT_ACCELERATION_RPM_PER_S,
        openloop_duty_ratio: DEFAULT_DUTY_RATIO,
        pwm_frequency: DEFAULT_PWM_FREQUENCY,
        pwm_dead_time: DEFAULT_PWM_DEAD_TIME,
        can_bitrate: DEFAULT_CAN_BITRATE,
        control_period_us: DEFAULT_CONTROL_PERIOD_US,
        crc32: 0,
    }
}

/// The bytes of a record before the checksum.
pub open spec fn record_body(c: StoredConfig) -> Seq<u8> {
    le32(c.magic) + le16(c.version) + le32(c.speed_kp) + le32(c.speed_ki) + le32(c.max_voltage)
        + le32(c.v_dc_bus) + seq![c.pole_pairs] + le16(c.max_duty) + le32(c.speed_filter_alpha)
        + le32(c.hall_angle_offset) + seq![bool_byte(c.enable_angle_interpolation)] + le32(
        c.calibration_electrical_offset,
    ) + seq![bool_byte(c.calibration_direction_inversed), bool_byte(c.calibration_success)] + le32(
        c.openloop_initial_rpm,
    ) + le32(c.openloop_target_rpm) + le32(c.openloop_acceleration) + le16(c.openloop_duty_ratio)
        + le32(c.pwm_frequency) + le16(c.pwm_dead_time) + le32(c.can_bitrate) + le64(
        c.control_period_us,
    )
}

/// The bytes of a record.
pub open spec fn record(c: StoredConfig) -> Seq<u8> {
    record_body(c) + le32(c.crc32)
}

/// The configuration that the first `RECORD_SIZE` bytes of `b` hold. A flag
/// is set by any non-zero byte.
pub open spec fn config_of(b: Seq<u8>) -> StoredConfig {
    StoredConfig {
        magic: val32(b, 0) as u32,
        version: val16(b, 4) as u16,
        speed_kp: val32(b, 6) as u32,
        speed_ki: val32(b, 10) as u32,
        max_voltage: val32(b, 14) as u32,
        v_dc_bus: val32(b, 18) as u32,
        pole_pairs: b[22],
        max_duty: val16(b, 23) as u16,
        speed_filter_alpha: val32(b, 25) as u32,
        hall_angle_offset: val32(b, 29) as u32,
        enable_angle_interpolation: b[33] != 0,
        calibration_electrical_offset: val32(b, 34) as u32,
        calibration_direction_inversed: b[38] != 0,
        calibration_success: b[39] != 0,
        openloop_initial_rpm: val32(b, 40) as u32,
        openloop_target_rpm: val32(b, 44) as u32,
        openloop_acceleration: val32(b, 48) as u32,
        openloop_duty_ratio: val16(b, 52) as u16,
        pwm_frequency: val32(b, 54) as u32,
        pwm_dead_time: val16(b, 58) as u16,
        can_bitrate: val32(b, 60) as u32,
        control_period_us: val64(b, 64) as u64,
        crc32: val32(b, 72) as u32,
    }
}


/// A record has the fixed size, and reading a record gives back the
/// configuration that was written, whatever bytes follow it.
#[verifier::rlimit(60)]
pub proof fn lemma_record_round_trip(c: StoredConfig, rest: Seq<u8>)
    ensures
        record_body(c).len() == BODY_SIZE,
        record(c).len() == RECORD_SIZE,
        config_of(record(c) + rest) == c,
{
    let s = record(c) + rest;
    assert(record_body(c).len() == 72);
    assert(s.subrange(0, 4) =~= le32(c.magic));
    lemma_val_of_le32(c.magic, s, 0);
    assert(s.subrange(6, 10) =~= le32(c.speed_kp));
    lemma_val_of_le32(c.speed_kp, s, 6);
    assert(s.subrange(10, 14) =~= le32(c.speed_ki));
    lemma_val_of_le32(c.speed_ki, s, 10);
    assert(s.subrange(14, 18) =~= le32(c.max_voltage));
    lemma_val_of_le32(c.max_voltage, s, 14);
    assert(s.subrange(18, 22) =~= le32(c.v_dc_bus));
    lemma_val_of_le32(c.v_dc_bus, s, 18);
    assert(s.subrange(25, 29) =~= le32(c.speed_filter_alpha));
    lemma_val_of_le32(c.speed_filter_alpha, s, 25);
    assert(s.subrange(29, 33) =~= le32(c.hall_angle_offset));
    lemma_val_of_le32(c.hall_angle_offset, s, 29);
    assert(s.subrange(34, 38) =~= le32(c.calibration_electrical_offset));
    lemma_val_of_le32(c.calibration_electrical_offset, s, 34);
    assert(s.subrange(40, 44) =~= le32(c.openloop_initial_rpm));
    lemma_val_of_le32(c.openloop_initial_rpm, s, 40);
    assert(s.subrange(44, 48) =~= le32(c.openloop_target_rpm));
    lemma_val_of_le32(c.openloop_target_rpm, s, 44);
    assert(s.subrange(48, 52) =~= le32(c.openloop_acceleration));
    lemma_val_of_le32(c.openloop_acceleration, s, 48);
    assert(s.subrange(54, 58) =~= le32(c.pwm_frequency));
    lemma_val_of_le32(c.pwm_frequency, s, 54);
    assert(s.subrange(60, 64) =~= le32(c.can_bitrate));
    lemma_val_of_le32(c.can_bitrate, s, 60);
    assert(s.subrange(72, 76) =~= le32(c.crc32));
    lemma_val_of_le32(c.crc32, s, 72);
    assert(s.subrange(4, 6) =~= le16(c.version));
    lemma_val_of_le16(c.version, s, 4);
    assert(s.subrange(23, 25) =~= le16(c.max_duty));
    lemma_val_of_le16(c.max_duty, s, 23);
    assert(s.subrange(52, 54) =~= le16(c.openloop_duty_ratio));
    lemma_val_of_le16(c.openloop_duty_ratio, s, 52);
    assert(s.subrange(58, 60) =~= le16(c.pwm_dead_time));
    lemma_val_of_le16(c.pwm_dead_time, s, 58);
    assert(s.subrange(64, 72) =~= le64(c.control_period_us));
    lemma_val_of_le64(c.control_period_us, s, 64);
    assert(s[22] == c.pole_pairs);
    assert(s[33] == bool_byte(c.enable_angle_interpolation));
    assert(s[38] == bool_byte(c.calibration_direction_inversed));
    assert(s[39] == bool_byte(c.calibration_success));
}


/// Appends `b` to `v`.
fn append(v: &mut Vec<u8>, b: &[u8])
    ensures
        final(v)@ == old(v)@ + b@,
{
    let mut i: usize = 0;
    while i < b.len()
        invariant
            i <= b@.len(),
            v@ == old(v)@ + b@.subrange(0, i as int),
        decreases b@.len() - i,
    {
        v.push(b[i]);
        i = i + 1;
        assert(v@ =~= old(v)@ + b@.subrange(0, i as int));
    }
    assert(b@.subrange(0, i as int) =~= b@);
}

fn flag(b: bool) -> (r: u8)
    ensures
        r == bool_byte(b),
{
    if b {
        1
    } else {
        0
    }
}

impl Default for StoredConfig {
    /// The compiled-in configuration.
    fn default() -> (c: Self)
        ensures
            c == default_config(),
    {
        StoredConfig {
            magic: CONFIG_MAGIC,
            version: CONFIG_VERSION,
            speed_kp: DEFAULT_SPEED_KP,
            speed_ki: DEFAULT_SPEED_KI,
            max_voltage: DEFAULT_MAX_VOLTAGE,
            v_dc_bus: DEFAULT_V_DC_BUS,
            pole_pairs: DEFAULT_POLE_PAIRS,
            max_duty: DEFAULT_MAX_DUTY,
            speed_filter_alpha: DEFAULT_SPEED_FILTER_ALPHA,
            hall_angle_offset: DEFAULT_HALL_ANGLE_OFFSET,
            enable_angle_interpolation: true,
            calibration_electrical_offset: 0,
            calibration_direction_inversed: false,
            calibration_success: false,
            openloop_initial_rpm: DEFAULT_INITIAL_RPM,
            openloop_target_rpm: DEFAULT_TARGET_RPM,
            openloop_acceleration: DEFAULT_ACCELERATION_RPM_PER_S,
            openloop_duty_ratio: DEFAULT_DUTY_RATIO,
            pwm_frequency: DEFAULT_PWM_FREQUENCY,
            pwm_dead_time: DEFAULT_PWM_DEAD_TIME,
            can_bitrate: DEFAULT_CAN_BITRATE,
            control_period_us: DEFAULT_CONTROL_PERIOD_US,
            crc32: 0,
        }
    }
}

impl StoredConfig {
    /// The bytes that the checksum covers: the record without its last
    /// field.
    pub fn as_bytes_for_crc(&self) -> (b: Vec<u8>)
        ensures
            b@ == record_body(*self),
            b@.len() == BODY_SIZE,
    {
        let mut v: Vec<u8> = Vec::new();
        append(&mut v, put_u32(self.magic).as_slice());
        append(&mut v, put_u16(self.version).as_slice());
        append(&mut v, put_u32(self.speed_kp).as_slice());
        append(&mut v, put_u32(self.speed_ki).as_slice());
        append(&mut v, put_u32(self.max_voltage).as_slice());
        append(&mut v, put_u32(self.v_dc_bus).as_slice());
        v.push(self.pole_pairs);
        append(&mut v, put_u16(self.max_duty).as_slice());
        append(&mut v, put_u32(self.speed_filter_alpha).as_slice());
        append(&mut v, put_u32(self.hall_angle_offset).as_slice());
        v.push(flag(self.enable_angle_interpolation));
        append(&mut v, put_u32(self.calibration_electrical_offset).as_slice());
        v.push(flag(self.calibration_direction_inversed));
        v.push(flag(self.calibration_success));
        append(&mut v, put_u32(self.openloop_initial_rpm).as_slice());
        append(&mut v, put_u32(self.openloop_target_rpm).as_slice());
        append(&mut v, put_u32(self.openloop_acceleration).as_slice());
        append(&mut v, put_u16(self.openloop_duty_ratio).as_slice());
        append(&mut v, put_u32(self.pwm_frequency).as_slice());
        append(&mut v, put_u16(self.pwm_dead_time).as_slice());
        append(&mut v, put_u32(self.can_bitrate).as_slice());
        append(&mut v, put_u64(self.control_period_us).as_slice());
        assert(v@ =~= record_body(*self));
        v
    }

    /// The bytes of the record.
    pub fn to_bytes(&self) -> (b: Vec<u8>)
        ensures
            b@ == record(*self),
            b@.len() == RECORD_SIZE,
    {
        let mut v = self.as_bytes_for_crc();
        append(&mut v, put_u32(self.crc32).as_slice());
        v
    }

    /// Reads a record; `None` when there are fewer bytes than a record has.
    /// Nothing is validated.
    pub fn from_bytes(bytes: &[u8]) -> (r: Option<StoredConfig>)
        ensures
            r == (if bytes@.len() < RECORD_SIZE {
                None
            } else {
                Some(config_of(bytes@))
            }),
    {
        if bytes.len() < RECORD_SIZE {
            return None;
        }
        Some(
            StoredConfig {
                magic: get_u32(bytes, 0),
                version: get_u16(bytes, 4),
                speed_kp: get_u32(bytes, 6),
                speed_ki: get_u32(bytes, 10),
                max_voltage: get_u32(bytes, 14),
                v_dc_bus: get_u32(bytes, 18),
                pole_pairs: bytes[22],
                max_duty: get_u16(bytes, 23),
                speed_filter_alpha: get_u32(bytes, 25),
                hall_angle_offset: get_u32(bytes, 29),
                enable_angle_interpolation: bytes[33] != 0,
                calibration_electrical_offset: get_u32(bytes, 34),
                calibration_direction_inversed: bytes[38] != 0,
                calibration_success: bytes[39] != 0,
                openloop_initial_rpm: get_u32(bytes, 40),
                openloop_target_rpm: get_u32(bytes, 44),
                openloop_acceleration: get_u32(bytes, 48),
                openloop_duty_ratio: get_u16(bytes, 52),
                pwm_frequency: get_u32(bytes, 54),
                pwm_dead_time: get_u16(bytes, 58),
                can_bitrate: get_u32(bytes, 60),
                control_period_us: get_u64(bytes, 64),
                crc32: get_u32(bytes, 72),
            },
        )
    }

    /// Whether magic number and version are those of this layout.
    pub fn validate_header(&self) -> (ok: bool)
        ensures
            ok == (self.magic == CONFIG_MAGIC && self.version == CONFIG_VERSION),
    {
        self.magic == CONFIG_MAGIC && self.version == CONFIG_VERSION
    }

    /// Whether `computed`, the checksum of the record's body, is the one the
    /// record carries.
    pub fn verify_crc(&self, computed: u32) -> (ok: bool)
        ensures
            ok == (computed == self.crc32),
    {
        computed == self.crc32
    }
}


/// Byte `i` of `data`, zero beyond its end.
pub open spec fn padded(data: Seq<u8>, i: int) -> int {
    if 0 <= i < data.len() {
        data[i] as int
    } else {
        0
    }
}

/// Word `k` of `data` for the checksum unit: four bytes, lowest first, the
/// last word filled up with zeros.
pub open spec fn crc_word(data: Seq<u8>, k: int) -> u32 {
    (padded(data, 4 * k) + 256 * padded(data, 4 * k + 1) + 65536 * padded(data, 4 * k + 2)
        + 16777216 * padded(data, 4 * k + 3)) as u32
}

/// The words that the checksum unit is fed for `data`.
pub open spec fn crc_words_of(data: Seq<u8>) -> Seq<u32> {
    Seq::new(((data.len() + 3) / 4) as nat, |k: int| crc_word(data, k))
}

fn byte_or_zero(data: &[u8], limit: usize, at: usize, offset: usize) -> (b: u32)
    requires
        limit <= data@.len(),
        at < limit,
        offset < 4,
    ensures
        b == padded(data@.subrange(0, limit as int), at + offset),
{
    if offset < limit - at {
        data[at + offset] as u32
    } else {
        0
    }
}

/// Packs the first `limit` bytes of `data` into words for the checksum unit.
fn pack_words(data: &[u8], limit: usize) -> (words: Vec<u32>)
    requires
        limit <= data@.len(),
    ensures
        words@ == crc_words_of(data@.subrange(0, limit as int)),
{
    let count = if limit % 4 == 0 {
        limit / 4
    } else {
        limit / 4 + 1
    };
    let ghost body = data@.subrange(0, limit as int);
    let mut words: Vec<u32> = Vec::new();
    let mut k: usize = 0;
    while k < count
        invariant
            k <= count,
            count == (limit + 3) / 4,
            limit <= data@.len(),
            body == data@.subrange(0, limit as int),
            words@.len() == k,
            forall|j: int| 0 <= j < k ==> words@[j] == crc_word(body, j),
        decreases count - k,
    {
        let at = 4 * k;
        let b0 = byte_or_zero(data, limit, at, 0);
        let b1 = byte_or_zero(data, limit, at, 1);
        let b2 = byte_or_zero(data, limit, at, 2);
        let b3 = byte_or_zero(data, limit, at, 3);
        words.push(b0 + 256 * b1 + 65536 * b2 + 16777216 * b3);
        k = k + 1;
    }
    assert(words@ =~= crc_words_of(body));
    words
}

/// The words that the checksum unit is fed for `data`.
pub fn crc_words(data: &[u8]) -> (words: Vec<u32>)
    ensures
        words@ == crc_words_of(data@),
{
    let n = data.len();
    assert(data@.subrange(0, n as int) =~= data@);
    pack_words(data, n)
}

/// The words to feed the checksum unit for the record in `bytes`: those of
/// its body. `None` when there are fewer bytes than a record has.
pub fn record_crc_words(bytes: &[u8]) -> (words: Option<Vec<u32>>)
    ensures
        bytes@.len() < RECORD_SIZE ==> words is None,
        bytes@.len() >= RECORD_SIZE ==> words is Some && words->0@ == crc_words_of(
            bytes@.subrange(0, BODY_SIZE as int),
        ),
{
    if bytes.len() < RECORD_SIZE {
        None
    } else {
        Some(pack_words(bytes, BODY_SIZE))
    }
}

/// What loading the record in `bytes` gives, `crc` being the checksum of the
/// record's body.
pub open spec fn loaded(bytes: Seq<u8>, crc: u32) -> Result<StoredConfig, EepromError> {
    let c = config_of(bytes);
    if bytes.len() < RECORD_SIZE {
        Err(EepromError::InvalidSize)
    } else if c.magic != CONFIG_MAGIC {
        Err(EepromError::InvalidMagic)
    } else if c.version != CONFIG_VERSION {
        Err(EepromError::VersionMismatch)
    } else if c.crc32 != crc {
        Err(EepromError::CrcMismatch)
    } else {
        Ok(c)
    }
}

/// Loads the record in `bytes`, as read from the configuration page.
/// `computed_crc` is the checksum that the checksum unit gave for
/// `record_crc_words(bytes)`; it is not looked at when there are too few
/// bytes. Size, magic number, version and checksum are checked in this
/// order.
pub fn read_config(bytes: &[u8], computed_crc: u32) -> (r: Result<StoredConfig, EepromError>)
    ensures
        r == loaded(bytes@, computed_crc),
{
    match StoredConfig::from_bytes(bytes) {
        None => Err(EepromError::InvalidSize),
        Some(c) => {
            if c.magic != CONFIG_MAGIC {
                Err(EepromError::InvalidMagic)
            } else if c.version != CONFIG_VERSION {
                Err(EepromError::VersionMismatch)
            } else if !c.verify_crc(computed_crc) {
                Err(EepromError::CrcMismatch)
            } else {
                Ok(c)
            }
        },
    }
}

/// The record to write for `config`: the configuration with
/// `computed_crc`, the checksum of its body, as its checksum.
pub fn write_config(config: &mut StoredConfig, computed_crc: u32) -> (bytes: Vec<u8>)
    ensures
        *final(config) == (StoredConfig { crc32: computed_crc, ..*old(config) }),
        bytes@ == record(*final(config)),
        bytes@.len() == RECORD_SIZE,
{
    config.crc32 = computed_crc;
    config.to_bytes()
}

/// Result of storing a record, from how erasing the page and writing it
/// went. The page is written only after it was erased.
pub fn write_outcome(erased: bool, written: bool) -> (r: Result<(), EepromError>)
    ensures
        r == (if !erased {
            Err::<(), EepromError>(EepromError::FlashEraseError)
        } else if !written {
            Err::<(), EepromError>(EepromError::FlashWriteError)
        } else {
            Ok::<(), EepromError>(())
        }),
{
    if !erased {
        Err(EepromError::FlashEraseError)
    } else if !written {
        Err(EepromError::FlashWriteError)
    } else {
        Ok(())
    }
}

/// The configuration to run with after a load: the loaded one, or the
/// defaults when loading failed. The flag says that the defaults are to be
/// written to the page.
pub fn load_or_initialize_config(read: Result<StoredConfig, EepromError>) -> (r: (
    StoredConfig,
    bool,
))
    ensures
        r == (match read {
            Ok(c) => (c, false),
            Err(_) => (default_config(), true),
        }),
{
    match read {
        Ok(c) => (c, false),
        Err(_) => (StoredConfig::default(), true),
    }
}

/// A record that was written with its checksum loads as the configuration
/// that was written, provided magic number and version are this layout's.
pub proof fn lemma_written_record_loads(c: StoredConfig, rest: Seq<u8>)
    ensures
        loaded(record(c) + rest, c.crc32) == (if c.magic != CONFIG_MAGIC {
            Err::<StoredConfig, EepromError>(EepromError::InvalidMagic)
        } else if c.version != CONFIG_VERSION {
            Err::<StoredConfig, EepromError>(EepromError::VersionMismatch)
        } else {
            Ok::<StoredConfig, EepromError>(c)
        }),
        forall|crc: u32|
            crc != c.crc32 && c.magic == CONFIG_MAGIC && c.version == CONFIG_VERSION ==> loaded(
                record(c) + rest,
                crc,
            ) == Err::<StoredConfig, EepromError>(EepromError::CrcMismatch),
{
    lemma_record_round_trip(c, rest);
}


/// A record is accepted only whole, with this layout's magic number and
/// version and with the checksum it carries; what is accepted is what the
/// bytes hold.
pub proof fn lemma_load_accepts_only_valid(bytes: Seq<u8>, crc: u32)
    ensures
        loaded(bytes, crc) is Ok <==> (bytes.len() >= RECORD_SIZE && config_of(bytes).magic
            == CONFIG_MAGIC && config_of(bytes).version == CONFIG_VERSION && config_of(bytes).crc32
            == crc),
        loaded(bytes, crc) is Ok ==> loaded(bytes, crc) == Ok::<StoredConfig, EepromError>(
            config_of(bytes),
        ),
{
}

} // verus!
