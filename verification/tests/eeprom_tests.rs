use bldc_foc::config_storage::{
    crc_words, load_or_initialize_config, read_config, record_crc_words, write_config,
    write_outcome, EepromError, StoredConfig, BODY_SIZE, CONFIG_MAGIC, CONFIG_VERSION,
    FLASH_PAGE_SIZE, LAST_PAGE_NUMBER, LAST_PAGE_START, RECORD_SIZE,
};

#[test]
fn test_flash_addresses() {
    assert_eq!(LAST_PAGE_START, 0x0801F800);
}

#[test]
fn test_page_size() {
    assert_eq!(FLASH_PAGE_SIZE, 2048);
}

#[test]
fn test_default_config() {
    let config = StoredConfig::default();
    assert_eq!(config.magic, CONFIG_MAGIC);
    assert_eq!(config.version, CONFIG_VERSION);
    assert_eq!(f32::from_bits(config.speed_kp), 0.5);
    assert_eq!(f32::from_bits(config.speed_ki), 0.05);
}

#[test]
fn test_size_constraint() {
    let size = core::mem::size_of::<StoredConfig>();
    assert!(size <= 2048, "Config size {} exceeds 2KB", size);
    assert!(RECORD_SIZE <= FLASH_PAGE_SIZE);
}

#[test]
fn default_values_are_the_documented_reals() {
    let c = StoredConfig::default();
    assert_eq!(f32::from_bits(c.max_voltage), 24.0);
    assert_eq!(f32::from_bits(c.v_dc_bus), 24.0);
    assert_eq!(c.pole_pairs, 6);
    assert_eq!(c.max_duty, 100);
    assert_eq!(f32::from_bits(c.speed_filter_alpha), 0.05);
    assert_eq!(f32::from_bits(c.hall_angle_offset), 0.0);
    assert!(c.enable_angle_interpolation);
    assert_eq!(f32::from_bits(c.calibration_electrical_offset), 0.0);
    assert!(!c.calibration_direction_inversed);
    assert!(!c.calibration_success);
    assert_eq!(f32::from_bits(c.openloop_initial_rpm), 50.0);
    assert_eq!(f32::from_bits(c.openloop_target_rpm), 500.0);
    assert_eq!(f32::from_bits(c.openloop_acceleration), 50.0);
    assert_eq!(c.openloop_duty_ratio, 80);
    assert_eq!(c.pwm_frequency, 50_000);
    assert_eq!(c.pwm_dead_time, 1);
    assert_eq!(c.can_bitrate, 250_000);
    assert_eq!(c.control_period_us, 400);
    assert_eq!(c.crc32, 0);
    assert_eq!(LAST_PAGE_NUMBER, 63);
    assert_eq!(LAST_PAGE_START as usize + FLASH_PAGE_SIZE, 0x0802_0000);
}

#[test]
fn record_layout_is_fixed() {
    let mut c = StoredConfig::default();
    c.crc32 = 0xAABB_CCDD;
    let bytes = c.to_bytes();
    assert_eq!(bytes.len(), RECORD_SIZE);
    assert_eq!(RECORD_SIZE, 76);
    assert_eq!(BODY_SIZE, 72);
    assert_eq!(&bytes[0..4], b"CFG1");
    assert_eq!(&bytes[4..6], &[1, 0]);
    assert_eq!(&bytes[6..10], &0.5f32.to_le_bytes());
    assert_eq!(bytes[22], 6);
    assert_eq!(&bytes[23..25], &[100, 0]);
    assert_eq!(bytes[33], 1);
    assert_eq!(&bytes[64..72], &400u64.to_le_bytes());
    assert_eq!(&bytes[72..76], &[0xDD, 0xCC, 0xBB, 0xAA]);
    assert_eq!(c.as_bytes_for_crc(), bytes[..72].to_vec());
}

#[test]
fn record_round_trip() {
    let mut c = StoredConfig::default();
    c.pole_pairs = 7;
    c.calibration_success = true;
    c.calibration_electrical_offset = 1.5f32.to_bits();
    c.control_period_us = 0x0102_0304_0506_0708;
    c.crc32 = 12345;
    let bytes = c.to_bytes();
    assert_eq!(StoredConfig::from_bytes(&bytes), Some(c));
    let mut longer = bytes.clone();
    longer.push(0xFF);
    assert_eq!(StoredConfig::from_bytes(&longer), Some(c));
    assert_eq!(StoredConfig::from_bytes(&bytes[..75]), None);
}

#[test]
fn load_checks_size_magic_version_and_checksum_in_order() {
    let mut c = StoredConfig::default();
    let bytes = write_config(&mut c, 0xDEAD_BEEF);
    assert_eq!(c.crc32, 0xDEAD_BEEF);
    assert_eq!(read_config(&bytes, 0xDEAD_BEEF), Ok(c));
    assert_eq!(read_config(&bytes, 0xDEAD_BEEE), Err(EepromError::CrcMismatch));
    assert_eq!(read_config(&bytes[..10], 0xDEAD_BEEF), Err(EepromError::InvalidSize));

    let mut bad_magic = bytes.clone();
    bad_magic[0] ^= 1;
    bad_magic[4] = 9;
    assert_eq!(read_config(&bad_magic, 0), Err(EepromError::InvalidMagic));

    let mut bad_version = bytes.clone();
    bad_version[4] = 2;
    assert_eq!(read_config(&bad_version, 0), Err(EepromError::VersionMismatch));

    let erased = vec![0xFFu8; 76];
    assert_eq!(read_config(&erased, 0xFFFF_FFFF), Err(EepromError::InvalidMagic));
}

#[test]
fn header_and_checksum_checks() {
    let mut c = StoredConfig::default();
    assert!(c.validate_header());
    assert!(c.verify_crc(0));
    assert!(!c.verify_crc(1));
    c.version = 2;
    assert!(!c.validate_header());
    c.version = CONFIG_VERSION;
    c.magic = 0;
    assert!(!c.validate_header());
}

#[test]
fn checksum_words_are_little_endian_and_zero_padded() {
    assert_eq!(crc_words(&[]), Vec::<u32>::new());
    assert_eq!(crc_words(&[1, 2, 3, 4]), vec![0x0403_0201]);
    assert_eq!(crc_words(&[1, 2, 3, 4, 5]), vec![0x0403_0201, 0x0000_0005]);
    assert_eq!(crc_words(&[1, 2, 3, 4, 5, 6, 7]), vec![0x0403_0201, 0x0007_0605]);
    let c = StoredConfig::default();
    let bytes = c.to_bytes();
    let words = record_crc_words(&bytes).unwrap();
    assert_eq!(words.len(), 18);
    assert_eq!(words[0], CONFIG_MAGIC);
    assert_eq!(words, crc_words(&bytes[..72]));
    assert_eq!(record_crc_words(&bytes[..75]), None);
}

#[test]
fn storing_fails_on_erase_before_write() {
    assert_eq!(write_outcome(true, true), Ok(()));
    assert_eq!(write_outcome(false, true), Err(EepromError::FlashEraseError));
    assert_eq!(write_outcome(false, false), Err(EepromError::FlashEraseError));
    assert_eq!(write_outcome(true, false), Err(EepromError::FlashWriteError));
}

#[test]
fn a_failed_load_falls_back_to_the_defaults() {
    let mut c = StoredConfig::default();
    c.pole_pairs = 4;
    assert_eq!(load_or_initialize_config(Ok(c)), (c, false));
    for e in [
        EepromError::FlashReadError,
        EepromError::CrcMismatch,
        EepromError::InvalidMagic,
        EepromError::VersionMismatch,
        EepromError::InvalidSize,
    ] {
        assert_eq!(load_or_initialize_config(Err(e)), (StoredConfig::default(), true));
    }
}
