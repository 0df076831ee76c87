//! Sensor calibration: the state machine that finds the direction polarity
//! and collects one shaft angle per Hall sector.
//!
//! The session decides; the caller owns the real-valued shaft positions. Each
//! tick the caller describes the two positions in a `ShaftObservation`, and
//! the session answers with a `CalibrationCommand` saying how to move the
//! requested position and what to drive.

use vstd::prelude::*;

verus! {

/// Ticks to wait after entering a Hall sector before its angle is recorded.
pub const SETTLE_TICKS: u32 = 25;

/// Lowest calibration torque, in percent of full torque.
pub const MIN_TORQUE_PERCENT: u8 = 10;

/// Highest calibration torque, in percent of full torque.
pub const MAX_TORQUE_PERCENT: u8 = 50;

/// Stage of a calibration session.
#[derive(Clone, Copy, Debug, PartialEq, Eq, Structural)]
pub enum CalibrationState {
    /// Nothing done yet.
    Init,
    /// Turning forward to see which way the sensor counts.
    FindDirection,
    /// Turning forward, recording the shaft angle of each Hall sector.
    MeasureSectors,
    /// Turning back to where the session began.
    ReturnToStart,
    /// Finished, with or without success.
    Completed,
}

/// Outcome of a calibration session.
#[derive(Clone, Copy, Debug, PartialEq, Eq, Structural)]
pub struct CalibrationResult {
    /// Electrical offset in radians, as single-precision bits.
    pub electrical_offset: u32,
    /// Whether the sensor counts against the drive direction.
    pub direction_inversed: bool,
    /// Whether the session ran to its end.
    pub success: bool,
}

/// The two shaft positions and the Hall code, as seen this tick.
#[derive(Clone, Copy, Debug)]
pub struct ShaftObservation {
    /// Whole turns of the requested position.
    pub req_rotations: i32,
    /// Requested angle within the turn is under a quarter turn.
    pub req_angle_below_quarter_turn: bool,
    /// Whole turns of the actual position.
    pub act_rotations: i32,
    /// Actual angle within the turn is under 0.1 rad.
    pub act_angle_below_tenth: bool,
    /// Accumulated actual position is negative.
    pub act_position_negative: bool,
    /// Actual angle within the turn in radians, as single-precision bits.
    pub act_angle: u32,
    /// Raw Hall code.
    pub hall_state: u8,
}

/// How the requested position moves in a tick.
#[derive(Clone, Copy, Debug, PartialEq, Eq, Structural)]
pub enum Motion {
    /// Zero angle, zero torque.
    Hold,
    /// Drive at the requested angle as it is.
    Stay,
    /// Advance the requested angle by one slow step, then drive there.
    Forward,
    /// Take the requested angle back by one return step, then drive there.
    Backward,
}

/// What the caller does after a tick.
#[derive(Clone, Copy, Debug)]
pub struct CalibrationCommand {
    /// Movement of the requested position and the drive.
    pub motion: Motion,
    /// Both shaft positions go back to zero.
    pub reset_positions: bool,
    /// The direction was decided: the actual position's inversion flag.
    pub actual_inversed: Option<bool>,
    /// All six sectors are recorded: the offset is to be computed from
    /// them and handed to `record_offset`.
    pub offset_due: bool,
}

/// Abstract state of a session.
pub struct Session {
    pub state: CalibrationState,
    pub pole_pairs: u8,
    pub torque_percent: u8,
    pub result: CalibrationResult,
    /// Recorded angle per Hall sector; index 0 is never used.
    pub sector_angles: Seq<Option<u32>>,
    pub prev_hall_sector: u8,
    pub sector_wait_counter: u32,
}

/// No sector recorded.
pub open spec fn no_sectors() -> Seq<Option<u32>> {
    Seq::new(7, |i: int| None::<u32>)
}

/// The result of a session that has not succeeded.
pub open spec fn failed_result() -> CalibrationResult {
    CalibrationResult { electrical_offset: 0, direction_inversed: false, success: false }
}

/// Whether each of the six sectors has its angle.
pub open spec fn all_recorded(s: Seq<Option<u32>>) -> bool {
    forall|i: int| 1 <= i <= 6 ==> (#[trigger] s[i]) is Some
}

/// Well-formed sessions.
pub open spec fn session_wf(v: Session) -> bool {
    &&& v.sector_angles.len() == 7
    &&& v.sector_angles[0] is None
    &&& MIN_TORQUE_PERCENT <= v.torque_percent <= MAX_TORQUE_PERCENT
    &&& v.prev_hall_sector <= 6
    &&& v.sector_wait_counter <= SETTLE_TICKS
}

/// Torque limited to the range in which calibration is safe.
pub open spec fn clamp_torque(percent: u8) -> u8 {
    if percent < MIN_TORQUE_PERCENT {
        MIN_TORQUE_PERCENT
    } else if percent > MAX_TORQUE_PERCENT {
        MAX_TORQUE_PERCENT
    } else {
        percent
    }
}

/// The command that only moves: no reset, no direction, no offset due.
pub open spec fn command(motion: Motion) -> CalibrationCommand {
    CalibrationCommand { motion, reset_positions: false, actual_inversed: None, offset_due: false }
}

/// The motor did not move during the direction search.
pub open spec fn motor_stuck(obs: ShaftObservation) -> bool {
    obs.act_rotations == 0 && obs.act_angle_below_tenth
}

/// Sector bookkeeping of one measuring tick with a valid Hall code.
pub open spec fn measure(v: Session, obs: ShaftObservation) -> Session {
    let hall = obs.hall_state;
    let entered = hall != v.prev_hall_sector;
    let wait = if entered {
        0
    } else {
        v.sector_wait_counter
    };
    if wait < SETTLE_TICKS {
        Session { prev_hall_sector: hall, sector_wait_counter: (wait + 1) as u32, ..v }
    } else if v.sector_angles[hall as int] is None {
        let angles = v.sector_angles.update(hall as int, Some(obs.act_angle));
        Session {
            prev_hall_sector: hall,
            sector_wait_counter: wait,
            sector_angles: angles,
            state: if all_recorded(angles) {
                CalibrationState::ReturnToStart
            } else {
                CalibrationState::MeasureSectors
            },
            ..v
        }
    } else {
        Session { prev_hall_sector: hall, sector_wait_counter: wait, ..v }
    }
}

/// One tick of the session.
pub open spec fn session_step(v: Session, obs: ShaftObservation) -> (
    Session,
    Result<CalibrationCommand, ()>,
) {
    match v.state {
        CalibrationState::Init => (
            Session {
                state: CalibrationState::FindDirection,
                result: CalibrationResult { electrical_offset: 0, ..v.result },
                sector_angles: no_sectors(),
                prev_hall_sector: 0,
                sector_wait_counter: 0,
                ..v
            },
            Ok(CalibrationCommand { reset_positions: true, ..command(Motion::Hold) }),
        ),
        CalibrationState::FindDirection => if obs.req_rotations >= 1 {
            if motor_stuck(obs) {
                (
                    Session {
                        state: CalibrationState::Completed,
                        result: CalibrationResult { success: false, ..v.result },
                        ..v
                    },
                    Err(()),
                )
            } else {
                let inversed = obs.act_position_negative;
                (
                    Session {
                        state: CalibrationState::MeasureSectors,
                        result: CalibrationResult { direction_inversed: inversed, ..v.result },
                        ..v
                    },
                    Ok(
                        CalibrationCommand {
                            actual_inversed: Some(inversed),
                            ..command(Motion::Stay)
                        },
                    ),
                )
            }
        } else {
            (v, Ok(command(Motion::Forward)))
        },
        CalibrationState::MeasureSectors => {
            let v1 = if 1 <= obs.hall_state <= 6 {
                measure(v, obs)
            } else {
                v
            };
            (
                v1,
                Ok(
                    CalibrationCommand {
                        offset_due: v1.state == CalibrationState::ReturnToStart,
                        ..command(Motion::Forward)
                    },
                ),
            )
        },
        CalibrationState::ReturnToStart => if obs.req_rotations == 0
            && obs.req_angle_below_quarter_turn {
            (
                Session {
                    state: CalibrationState::Completed,
                    result: CalibrationResult { success: true, ..v.result },
                    ..v
                },
                Ok(command(Motion::Hold)),
            )
        } else {
            (v, Ok(command(Motion::Backward)))
        },
        CalibrationState::Completed => (v, Ok(command(Motion::Hold))),
    }
}


impl CalibrationResult {
    /// The result before a session has succeeded.
    pub fn new() -> (r: Self)
        ensures
            r == failed_result(),
    {
        CalibrationResult { electrical_offset: 0, direction_inversed: false, success: false }
    }
}

/// A calibration session.
pub struct MotorCalibration {
    state: CalibrationState,
    pole_pairs: u8,
    torque_percent: u8,
    result: CalibrationResult,
    sector_angles: [Option<u32>; 7],
    prev_hall_sector: u8,
    sector_wait_counter: u32,
}

impl View for MotorCalibration {
    type V = Session;

    closed spec fn view(&self) -> Session {
        Session {
            state: self.state,
            pole_pairs: self.pole_pairs,
            torque_percent: self.torque_percent,
            result: self.result,
            sector_angles: self.sector_angles@,
            prev_hall_sector: self.prev_hall_sector,
            sector_wait_counter: self.sector_wait_counter,
        }
    }
}

fn limit_torque(percent: u8) -> (t: u8)
    ensures
        t == clamp_torque(percent),
{
    if percent < MIN_TORQUE_PERCENT {
        MIN_TORQUE_PERCENT
    } else if percent > MAX_TORQUE_PERCENT {
        MAX_TORQUE_PERCENT
    } else {
        percent
    }
}

impl MotorCalibration {
    /// The session's invariant.
    pub open spec fn wf(&self) -> bool {
        session_wf(self@)
    }

    /// A session that has not begun, for a motor with `pole_pairs` pole
    /// pairs, driving at `torque_percent` limited to 10..=50.
    pub fn new(pole_pairs: u8, torque_percent: u8) -> (c: Self)
        ensures
            c.wf(),
            c@ == (Session {
                state: CalibrationState::Init,
                pole_pairs,
                torque_percent: clamp_torque(torque_percent),
                result: failed_result(),
                sector_angles: no_sectors(),
                prev_hall_sector: 0,
                sector_wait_counter: 0,
            }),
    {
        let c = MotorCalibration {
            state: CalibrationState::Init,
            pole_pairs,
            torque_percent: limit_torque(torque_percent),
            result: CalibrationResult::new(),
            sector_angles: [None, None, None, None, None, None, None],
            prev_hall_sector: 0,
            sector_wait_counter: 0,
        };
        assert(c.sector_angles@ =~= no_sectors());
        c
    }

    /// Begins the session anew, keeping motor and torque.
    pub fn start(&mut self)
        requires
            old(self).wf(),
        ensures
            final(self).wf(),
            final(self)@ == (Session {
                state: CalibrationState::Init,
                result: failed_result(),
                sector_angles: no_sectors(),
                prev_hall_sector: 0,
                sector_wait_counter: 0,
                ..old(self)@
            }),
    {
        self.state = CalibrationState::Init;
        self.result = CalibrationResult::new();
        self.sector_angles = [None, None, None, None, None, None, None];
        self.prev_hall_sector = 0;
        self.sector_wait_counter = 0;
        assert(self.sector_angles@ =~= no_sectors());
    }

    /// Stage of the session.
    pub fn get_state(&self) -> (s: CalibrationState)
        ensures
            s == self@.state,
    {
        self.state
    }

    /// Result so far.
    pub fn get_result(&self) -> (r: CalibrationResult)
        ensures
            r == self@.result,
    {
        self.result
    }

    /// Whether the session has finished.
    pub fn is_completed(&self) -> (done: bool)
        ensures
            done == (self@.state == CalibrationState::Completed),
    {
        self.state == CalibrationState::Completed
    }

    /// Pole pairs of the motor.
    pub fn pole_pairs(&self) -> (n: u8)
        ensures
            n == self@.pole_pairs,
    {
        self.pole_pairs
    }

    /// Drive torque in percent.
    pub fn torque_percent(&self) -> (t: u8)
        requires
            self.wf(),
        ensures
            t == self@.torque_percent,
            MIN_TORQUE_PERCENT <= t <= MAX_TORQUE_PERCENT,
    {
        self.torque_percent
    }

    /// Sets the drive torque, limited to 10..=50 percent.
    pub fn set_torque(&mut self, torque_percent: u8)
        requires
            old(self).wf(),
        ensures
            final(self).wf(),
            final(self)@ == (Session { torque_percent: clamp_torque(torque_percent), ..old(self)@ }),
    {
        self.torque_percent = limit_torque(torque_percent);
    }

    /// The angle recorded for Hall sector `sector`, if any.
    pub fn sector_angle(&self, sector: u8) -> (a: Option<u32>)
        requires
            self.wf(),
        ensures
            a == (if sector <= 6 {
                self@.sector_angles[sector as int]
            } else {
                None
            }),
    {
        if sector <= 6 {
            self.sector_angles[sector as usize]
        } else {
            None
        }
    }

    fn all_sectors_recorded(&self) -> (all: bool)
        requires
            self.wf(),
        ensures
            all == all_recorded(self@.sector_angles),
    {
        let a = &self.sector_angles;
        let all = a[1].is_some() && a[2].is_some() && a[3].is_some() && a[4].is_some()
            && a[5].is_some() && a[6].is_some();
        proof {
            let s = self@.sector_angles;
            if all {
                assert forall|i: int| 1 <= i <= 6 implies (#[trigger] s[i]) is Some by {
                    if i == 1 {
                    } else if i == 2 {
                    } else if i == 3 {
                    } else if i == 4 {
                    } else if i == 5 {
                    } else {
                    }
                }
            } else {
                assert(s[1] is None || s[2] is None || s[3] is None || s[4] is None || s[5] is None
                    || s[6] is None);
            }
        }
        all
    }

    /// Stores the electrical offset computed from the six recorded sector
    /// angles. It is taken while the session returns to start, and only
    /// then; the answer says whether it was.
    pub fn record_offset(&mut self, electrical_offset: u32) -> (taken: bool)
        ensures
            taken == (old(self)@.state == CalibrationState::ReturnToStart),
            taken ==> final(self)@ == (Session {
                result: CalibrationResult { electrical_offset, ..old(self)@.result },
                ..old(self)@
            }),
            !taken ==> final(self)@ == old(self)@,
    {
        if self.state == CalibrationState::ReturnToStart {
            self.result.electrical_offset = electrical_offset;
            true
        } else {
            false
        }
    }

    /// One tick of the session. Fails, once, when the direction search has
    /// asked for a full turn and the shaft has not moved.
    pub fn update(&mut self, obs: ShaftObservation) -> (r: Result<CalibrationCommand, ()>)
        requires
            old(self).wf(),
        ensures
            final(self).wf(),
            (final(self)@, r) == session_step(old(self)@, obs),
    {
        let plain = CalibrationCommand {
            motion: Motion::Hold,
            reset_positions: false,
            actual_inversed: None,
            offset_due: false,
        };
        match self.state {
            CalibrationState::Init => {
                self.result.electrical_offset = 0;
                self.sector_angles = [None, None, None, None, None, None, None];
                self.prev_hall_sector = 0;
                self.sector_wait_counter = 0;
                self.state = CalibrationState::FindDirection;
                assert(self.sector_angles@ =~= no_sectors());
                Ok(CalibrationCommand { reset_positions: true, ..plain })
            },
            CalibrationState::FindDirection => {
                if obs.req_rotations >= 1 {
                    if obs.act_rotations == 0 && obs.act_angle_below_tenth {
                        self.state = CalibrationState::Completed;
                        self.result.success = false;
                        return Err(());
                    }
                    let inversed = obs.act_position_negative;
                    self.result.direction_inversed = inversed;
                    self.state = CalibrationState::MeasureSectors;
                    Ok(
                        CalibrationCommand {
                            motion: Motion::Stay,
                            actual_inversed: Some(inversed),
                            ..plain
                        },
                    )
                } else {
                    Ok(CalibrationCommand { motion: Motion::Forward, ..plain })
                }
            },
            CalibrationState::MeasureSectors => {
                let hall = obs.hall_state;
                if 1 <= hall && hall <= 6 {
                    if hall != self.prev_hall_sector {
                        self.prev_hall_sector = hall;
                        self.sector_wait_counter = 0;
                    }
                    if self.sector_wait_counter < SETTLE_TICKS {
                        self.sector_wait_counter = self.sector_wait_counter + 1;
                    } else if self.sector_angles[hall as usize].is_none() {
                        self.sector_angles[hall as usize] = Some(obs.act_angle);
                        if self.all_sectors_recorded() {
                            self.state = CalibrationState::ReturnToStart;
                        }
                    }
                }
                Ok(
                    CalibrationCommand {
                        motion: Motion::Forward,
                        offset_due: self.state == CalibrationState::ReturnToStart,
                        ..plain
                    },
                )
            },
            CalibrationState::ReturnToStart => {
                if obs.req_rotations == 0 && obs.req_angle_below_quarter_turn {
                    self.state = CalibrationState::Completed;
                    self.result.success = true;
                    Ok(plain)
                } else {
                    Ok(CalibrationCommand { motion: Motion::Backward, ..plain })
                }
            },
            CalibrationState::Completed => Ok(plain),
        }
    }
}


/// Position of a stage in the order in which a session passes through them.
pub open spec fn stage_rank(s: CalibrationState) -> int {
    match s {
        CalibrationState::Init => 0,
        CalibrationState::FindDirection => 1,
        CalibrationState::MeasureSectors => 2,
        CalibrationState::ReturnToStart => 3,
        CalibrationState::Completed => 4,
    }
}

/// When the direction search has asked for a full turn and the actual shaft
/// is still within 0.1 rad of where it began, the tick fails, the session is
/// over and its result is not a success.
pub proof fn lemma_abort_when_motor_stuck(v: Session, obs: ShaftObservation)
    requires
        v.state == CalibrationState::FindDirection,
        obs.req_rotations >= 1,
        obs.act_rotations == 0,
        obs.act_angle_below_tenth,
    ensures
        session_step(v, obs).1 is Err,
        session_step(v, obs).0.state == CalibrationState::Completed,
        session_step(v, obs).0.result.success == false,
{
}

/// A tick fails in no other case than a stuck motor at the end of the
/// direction search.
pub proof fn lemma_failure_only_when_stuck(v: Session, obs: ShaftObservation)
    ensures
        session_step(v, obs).1 is Err <==> (v.state == CalibrationState::FindDirection
            && obs.req_rotations >= 1 && motor_stuck(obs)),
{
}

/// A tick keeps the session well-formed.
pub proof fn lemma_step_keeps_wf(v: Session, obs: ShaftObservation)
    requires
        session_wf(v),
    ensures
        session_wf(session_step(v, obs).0),
{
    assert(no_sectors().len() == 7 && no_sectors()[0] is None);
}

/// A session never goes back a stage, moves on by one stage at a time but
/// for the failure that ends it, and stays completed once it is.
pub proof fn lemma_stage_order(v: Session, obs: ShaftObservation)
    ensures
        stage_rank(v.state) <= stage_rank(session_step(v, obs).0.state),
        session_step(v, obs).1 is Ok ==> stage_rank(session_step(v, obs).0.state) <= stage_rank(
            v.state,
        ) + 1,
        v.state == CalibrationState::Completed ==> session_step(v, obs).0 == v
            && session_step(v, obs).1 == Ok::<CalibrationCommand, ()>(command(Motion::Hold)),
{
}

/// Success is declared in one place only: at the end of the return to start,
/// with the requested position back within a quarter turn of zero.
pub proof fn lemma_success_only_after_return(v: Session, obs: ShaftObservation)
    requires
        !v.result.success,
        session_step(v, obs).0.result.success,
    ensures
        v.state == CalibrationState::ReturnToStart,
        session_step(v, obs).0.state == CalibrationState::Completed,
        obs.req_rotations == 0,
        obs.req_angle_below_quarter_turn,
{
}

/// While measuring, a sector's angle is recorded once: a tick never changes
/// an angle that is already there, records at most the sector of the current
/// Hall code, and leaves the measuring stage exactly when all six are there.
pub proof fn lemma_sector_recorded_once(v: Session, obs: ShaftObservation, sector: int)
    requires
        session_wf(v),
        v.state == CalibrationState::MeasureSectors,
        0 <= sector <= 6,
    ensures
        v.sector_angles[sector] is Some ==> session_step(v, obs).0.sector_angles[sector]
            == v.sector_angles[sector],
        sector != obs.hall_state ==> session_step(v, obs).0.sector_angles[sector]
            == v.sector_angles[sector],
        session_step(v, obs).0.state == CalibrationState::ReturnToStart ==> all_recorded(
            session_step(v, obs).0.sector_angles,
        ),
        session_step(v, obs).0.state == CalibrationState::MeasureSectors
            || session_step(v, obs).0.state == CalibrationState::ReturnToStart,
{
}

} // verus!
