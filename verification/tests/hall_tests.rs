use bldc_foc::hall_sensor::{
    hall_angle_deg, normalized_index, HallReading, HallSensor, HALL_STATE_TABLE, INVALID_INDEX,
};
use bldc_foc::hall_tim::{
    get_hall_state, get_period_cycles, is_timeout, reset_state, tim4_irq_handler, HallCapture,
    TIMEOUT_OVERFLOWS,
};
use core::f32::consts::TAU;

#[test]
fn hall_sensor_test_valid_states() {
    assert!(!HallSensor::is_valid_state(0));
    assert!(HallSensor::is_valid_state(1));
    assert!(HallSensor::is_valid_state(6));
    assert!(!HallSensor::is_valid_state(7));
}

#[test]
fn test_hall_state_table() {
    assert_eq!(HALL_STATE_TABLE[0], 255);
    assert_eq!(HALL_STATE_TABLE[1], 0);
    assert_eq!(HALL_STATE_TABLE[2], 2);
    assert_eq!(HALL_STATE_TABLE[3], 1);
    assert_eq!(HALL_STATE_TABLE[4], 4);
    assert_eq!(HALL_STATE_TABLE[5], 5);
    assert_eq!(HALL_STATE_TABLE[6], 3);
    assert_eq!(HALL_STATE_TABLE[7], 255);
}

#[test]
fn test_angle_calculation() {
    let pole_pairs = 6;
    let hall_idx_max = HallSensor::new(pole_pairs).hall_idx_max();
    assert_eq!(hall_idx_max, 36);
    let angle_per_state = TAU / (hall_idx_max as f32);
    let expected_deg = 360.0 / 36.0;
    let expected_rad = expected_deg * core::f32::consts::PI / 180.0;
    assert!((angle_per_state - expected_rad).abs() < 0.001);
}

#[test]
fn test_angle_lookup() {
    assert_eq!(hall_angle_deg(1).map(f32::from), Some(30.0));
    assert_eq!(hall_angle_deg(2).map(f32::from), Some(90.0));
    assert_eq!(hall_angle_deg(6).map(f32::from), Some(330.0));
    assert_eq!(hall_angle_deg(0).map(f32::from), None);
    assert_eq!(hall_angle_deg(7).map(f32::from), None);
}

#[test]
fn index_lookup_is_one_to_one_on_valid_codes() {
    let mut seen = [false; 6];
    for raw in 0u8..=255 {
        let idx = normalized_index(raw);
        if HallSensor::is_valid_state(raw) {
            assert!(idx < 6);
            assert!(!seen[idx as usize]);
            seen[idx as usize] = true;
        } else {
            assert_eq!(idx, INVALID_INDEX);
        }
    }
    assert_eq!(seen, [true; 6]);
    assert_eq!(hall_angle_deg(3), Some(150));
    assert_eq!(hall_angle_deg(4), Some(210));
    assert_eq!(hall_angle_deg(5), Some(270));
    assert_eq!(hall_angle_deg(8), None);
}

#[test]
fn tracker_counts_electrical_revolutions_forward() {
    let mut h = HallSensor::new(2);
    assert_eq!(h.pole_pairs(), 2);
    assert_eq!(h.hall_idx_max(), 12);
    assert!(h.is_interpolation_enabled());
    // commutation order forward: 1, 3, 2, 6, 4, 5
    assert_eq!(h.update(1, 1000, false), HallReading::Moving { hall_state_idx: 0, edge: false });
    assert_eq!(h.update(1, 1000, false), HallReading::Moving { hall_state_idx: 0, edge: false });
    assert_eq!(h.update(3, 1000, false), HallReading::Moving { hall_state_idx: 1, edge: true });
    assert_eq!(h.update(2, 1000, false), HallReading::Moving { hall_state_idx: 2, edge: true });
    assert_eq!(h.update(6, 1000, false), HallReading::Moving { hall_state_idx: 3, edge: true });
    assert_eq!(h.update(4, 1000, false), HallReading::Moving { hall_state_idx: 4, edge: true });
    assert_eq!(h.update(5, 1000, false), HallReading::Moving { hall_state_idx: 5, edge: true });
    assert_eq!(h.update(1, 1000, false), HallReading::Moving { hall_state_idx: 6, edge: true });
    assert_eq!(h.hall_idx_base(), 6);
    for raw in [3, 2, 6, 4, 5] {
        h.update(raw, 1000, false);
    }
    // second electrical revolution done: the mechanical turn starts again
    assert_eq!(h.update(1, 1000, false), HallReading::Moving { hall_state_idx: 0, edge: true });
    assert_eq!(h.hall_idx_base(), 0);
}

#[test]
fn tracker_counts_electrical_revolutions_backward() {
    let mut h = HallSensor::new(3);
    assert_eq!(h.update(1, 500, false), HallReading::Moving { hall_state_idx: 0, edge: false });
    assert_eq!(h.update(5, 500, false), HallReading::Moving { hall_state_idx: 17, edge: true });
    assert_eq!(h.hall_idx_base(), 12);
    for raw in [4, 6, 2, 3, 1] {
        h.update(raw, 500, false);
    }
    assert_eq!(h.update(5, 500, false), HallReading::Moving { hall_state_idx: 11, edge: true });
    assert_eq!(h.hall_idx_base(), 6);
}

#[test]
fn invalid_codes_freeze_the_tracker() {
    let mut h = HallSensor::new(6);
    h.update(5, 100, false);
    h.update(1, 100, false);
    assert_eq!(h.hall_idx_base(), 6);
    assert_eq!(h.update(0, 100, false), HallReading::Invalid);
    assert_eq!(h.update(7, 100, true), HallReading::Invalid);
    assert_eq!(h.update(200, 0, false), HallReading::Invalid);
    assert_eq!(h.hall_idx_base(), 6);
    // the next valid code continues from the state before the fault
    assert_eq!(h.update(3, 100, false), HallReading::Moving { hall_state_idx: 7, edge: true });
}

#[test]
fn a_stalled_rotor_reports_the_discrete_step_and_keeps_the_history() {
    let mut h = HallSensor::new(6);
    h.update(4, 100, false);
    h.update(5, 100, false);
    assert_eq!(h.update(1, 100, true), HallReading::Stalled { hall_state_idx: 0 });
    assert_eq!(h.update(1, 0, false), HallReading::Stalled { hall_state_idx: 0 });
    // not taken as an edge while stalled: the wrap is seen once the rotor moves
    assert_eq!(h.update(1, 100, false), HallReading::Moving { hall_state_idx: 6, edge: true });
    h.set_interpolation(false);
    assert!(!h.is_interpolation_enabled());
    h.reset();
    assert_eq!(h.hall_idx_base(), 0);
    assert!(!h.is_interpolation_enabled());
    assert_eq!(h.update(3, 100, false), HallReading::Moving { hall_state_idx: 1, edge: false });
}

#[test]
fn capture_records_code_and_period_on_an_edge() {
    let mut c = HallCapture::new();
    assert_eq!(get_hall_state(&c), 0);
    assert_eq!(get_period_cycles(&c), 0);
    assert!(!is_timeout(&c));
    tim4_irq_handler(&mut c, false, true, 1234, true, false, true);
    assert_eq!(get_hall_state(&c), 0b101);
    assert_eq!(get_period_cycles(&c), 1234);
    tim4_irq_handler(&mut c, true, false, 0, false, false, false);
    tim4_irq_handler(&mut c, true, false, 0, false, false, false);
    assert_eq!(c.overflow_counter, 2);
    assert_eq!(get_period_cycles(&c), 1234);
    tim4_irq_handler(&mut c, false, true, 0x0010, false, true, true);
    assert_eq!(get_hall_state(&c), 0b110);
    assert_eq!(get_period_cycles(&c), 0x0002_0010);
    assert_eq!(c.last_capture, 0x0010);
    assert_eq!(c.last_overflow, 2);
    assert_eq!(c.overflow_counter, 0);
    // overflow and edge in one interrupt: the tick is counted first
    tim4_irq_handler(&mut c, true, true, 7, true, true, true);
    assert_eq!(get_hall_state(&c), 7);
    assert_eq!(get_period_cycles(&c), 0x0001_0007);
}

#[test]
fn capture_times_out_after_the_threshold_and_an_edge_clears_it() {
    let mut c = HallCapture::new();
    c.on_edge(500, true, false, false);
    for _ in 0..TIMEOUT_OVERFLOWS {
        c.on_overflow();
    }
    assert!(!is_timeout(&c));
    assert_eq!(get_period_cycles(&c), 500);
    c.on_overflow();
    assert!(is_timeout(&c));
    assert_eq!(get_period_cycles(&c), 0);
    assert_eq!(get_hall_state(&c), 1);
    c.on_edge(9, false, true, false);
    assert!(!is_timeout(&c));
    assert_eq!(get_period_cycles(&c), (2601 << 16) | 9);
    c.on_overflow();
    reset_state(&mut c);
    assert_eq!(
        c,
        HallCapture {
            hall_state: 2,
            last_capture: 0,
            last_overflow: 0,
            overflow_counter: 0,
            period_cycles: 0,
            timeout_flag: false
        }
    );
}

#[test]
fn capture_counter_wraps_and_period_keeps_the_low_bits() {
    let mut c = HallCapture::new();
    c.overflow_counter = u32::MAX;
    c.on_overflow();
    assert_eq!(c.overflow_counter, 0);
    assert!(!is_timeout(&c));
    c.overflow_counter = 0x0001_0002;
    c.on_edge(3, true, false, false);
    assert_eq!(get_period_cycles(&c), 0x0002_0003);
}
