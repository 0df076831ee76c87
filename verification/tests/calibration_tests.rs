use bldc_foc::calibration::{
    CalibrationCommand, CalibrationResult, CalibrationState, Motion, MotorCalibration,
    ShaftObservation, SETTLE_TICKS,
};

fn observation() -> ShaftObservation {
    ShaftObservation {
        req_rotations: 0,
        req_angle_below_quarter_turn: true,
        act_rotations: 0,
        act_angle_below_tenth: true,
        act_position_negative: false,
        act_angle: 0,
        hall_state: 0,
    }
}

fn motion(r: Result<CalibrationCommand, ()>) -> Motion {
    r.unwrap().motion
}

#[test]
fn test_calibration_new() {
    let cal = MotorCalibration::new(6, 20);
    assert_eq!(cal.get_state(), CalibrationState::Init);
    assert!(!cal.is_completed());
}

#[test]
fn test_calibration_start() {
    let mut cal = MotorCalibration::new(6, 20);
    cal.start();
    assert_eq!(cal.get_state(), CalibrationState::Init);
    assert!(!cal.get_result().success);
}

#[test]
fn test_torque_clamping() {
    let mut cal = MotorCalibration::new(6, 80);
    assert!(cal.torque_percent() <= 50);

    cal.set_torque(5);
    assert!(cal.torque_percent() >= 10);
}

#[test]
fn torque_is_kept_within_ten_and_fifty_percent() {
    assert_eq!(MotorCalibration::new(6, 80).torque_percent(), 50);
    assert_eq!(MotorCalibration::new(6, 0).torque_percent(), 10);
    assert_eq!(MotorCalibration::new(6, 10).torque_percent(), 10);
    assert_eq!(MotorCalibration::new(6, 50).torque_percent(), 50);
    assert_eq!(MotorCalibration::new(6, 25).torque_percent(), 25);
    assert_eq!(MotorCalibration::new(7, 25).pole_pairs(), 7);
}

#[test]
fn calibration_aborts_when_the_motor_did_not_move() {
    let mut cal = MotorCalibration::new(6, 20);
    let first = cal.update(observation()).unwrap();
    assert!(first.reset_positions);
    assert_eq!(first.motion, Motion::Hold);
    assert_eq!(cal.get_state(), CalibrationState::FindDirection);
    // the request turns, the shaft stays
    for _ in 0..100 {
        assert_eq!(motion(cal.update(observation())), Motion::Forward);
    }
    let stuck = ShaftObservation { req_rotations: 1, ..observation() };
    assert_eq!(cal.update(stuck).map(|c| c.motion), Err(()));
    assert!(cal.is_completed());
    assert!(!cal.get_result().success);
    // a completed session holds zero torque
    assert_eq!(motion(cal.update(stuck)), Motion::Hold);
    assert!(!cal.get_result().success);
}

#[test]
fn a_small_angle_after_a_whole_turn_is_movement() {
    let mut cal = MotorCalibration::new(6, 20);
    cal.update(observation()).unwrap();
    let moved = ShaftObservation { req_rotations: 1, act_rotations: 1, ..observation() };
    let cmd = cal.update(moved).unwrap();
    assert_eq!(cmd.motion, Motion::Stay);
    assert_eq!(cmd.actual_inversed, Some(false));
    assert_eq!(cal.get_state(), CalibrationState::MeasureSectors);
}

fn run_to_measuring(cal: &mut MotorCalibration, negative: bool) {
    cal.update(observation()).unwrap();
    let moved = ShaftObservation {
        req_rotations: 1,
        act_angle_below_tenth: false,
        act_position_negative: negative,
        ..observation()
    };
    let cmd = cal.update(moved).unwrap();
    assert_eq!(cmd.actual_inversed, Some(negative));
}

#[test]
fn direction_follows_the_sign_of_the_actual_position() {
    let mut cal = MotorCalibration::new(6, 20);
    run_to_measuring(&mut cal, true);
    assert!(cal.get_result().direction_inversed);
    let mut cal = MotorCalibration::new(6, 20);
    run_to_measuring(&mut cal, false);
    assert!(!cal.get_result().direction_inversed);
}

#[test]
fn full_session_records_each_sector_once_and_succeeds() {
    let mut cal = MotorCalibration::new(6, 20);
    run_to_measuring(&mut cal, false);
    for sector in 1u8..=6 {
        let obs = ShaftObservation {
            req_rotations: 1,
            act_angle_below_tenth: false,
            act_angle: 1000 + sector as u32,
            hall_state: sector,
            ..observation()
        };
        for _ in 0..SETTLE_TICKS {
            let cmd = cal.update(obs).unwrap();
            assert_eq!(cmd.motion, Motion::Forward);
            assert!(!cmd.offset_due);
            assert_eq!(cal.sector_angle(sector), None);
        }
        let cmd = cal.update(obs).unwrap();
        assert_eq!(cal.sector_angle(sector), Some(1000 + sector as u32));
        assert_eq!(cmd.offset_due, sector == 6);
        if sector < 6 {
            // staying in the sector does not record again
            let later = ShaftObservation { act_angle: 9999, ..obs };
            cal.update(later).unwrap();
            assert_eq!(cal.sector_angle(sector), Some(1000 + sector as u32));
            assert_eq!(cal.get_state(), CalibrationState::MeasureSectors);
            assert!(!cal.record_offset(1));
        }
    }
    assert_eq!(cal.get_state(), CalibrationState::ReturnToStart);
    assert_eq!(cal.sector_angle(0), None);
    assert_eq!(cal.sector_angle(7), None);
    assert!(cal.record_offset(0.75f32.to_bits()));
    let away = ShaftObservation { req_rotations: 1, req_angle_below_quarter_turn: true, ..observation() };
    assert_eq!(motion(cal.update(away)), Motion::Backward);
    let near = ShaftObservation { req_rotations: 0, req_angle_below_quarter_turn: false, ..observation() };
    assert_eq!(motion(cal.update(near)), Motion::Backward);
    assert!(!cal.is_completed());
    assert_eq!(motion(cal.update(observation())), Motion::Hold);
    assert!(cal.is_completed());
    assert_eq!(
        cal.get_result(),
        CalibrationResult {
            electrical_offset: 0.75f32.to_bits(),
            direction_inversed: false,
            success: true
        }
    );
    assert!(!cal.record_offset(5));
    cal.start();
    assert_eq!(cal.get_state(), CalibrationState::Init);
    assert_eq!(cal.get_result(), CalibrationResult::new());
    assert_eq!(cal.sector_angle(3), None);
}

#[test]
fn invalid_hall_codes_are_skipped_while_measuring() {
    let mut cal = MotorCalibration::new(6, 20);
    run_to_measuring(&mut cal, false);
    for code in [0u8, 7, 8, 255] {
        let obs = ShaftObservation { hall_state: code, ..observation() };
        for _ in 0..40 {
            assert_eq!(motion(cal.update(obs)), Motion::Forward);
        }
    }
    for sector in 0u8..=7 {
        assert_eq!(cal.sector_angle(sector), None);
    }
}

#[test]
fn leaving_a_sector_restarts_the_settling_wait() {
    let mut cal = MotorCalibration::new(6, 20);
    run_to_measuring(&mut cal, false);
    let in1 = ShaftObservation { hall_state: 1, act_angle: 11, ..observation() };
    let in3 = ShaftObservation { hall_state: 3, act_angle: 33, ..observation() };
    for _ in 0..SETTLE_TICKS {
        cal.update(in1).unwrap();
    }
    cal.update(in3).unwrap();
    for _ in 0..SETTLE_TICKS - 1 {
        cal.update(in3).unwrap();
    }
    cal.update(in1).unwrap();
    assert_eq!(cal.sector_angle(1), None);
    assert_eq!(cal.sector_angle(3), None);
    for _ in 0..SETTLE_TICKS {
        cal.update(in1).unwrap();
    }
    assert_eq!(cal.sector_angle(1), Some(11));
}
