//! The control-mode coordinator: which of open loop, closed loop and
//! calibration runs in a tick, and when one hands over to another.

use crate::hall_sensor::valid_code;
use vstd::prelude::*;

verus! {

/// Mode of the motor control.
#[derive(Clone, Copy, Debug, PartialEq, Eq, Structural)]
pub enum ControlMode {
    /// Forced commutation at start.
    OpenLoop,
    /// Field-oriented speed control on the Hall angle.
    ClosedLoopFoc,
    /// Sensor calibration.
    Calibration,
}

/// What a tick begins with.
#[derive(Clone, Copy, Debug, PartialEq, Eq, Structural)]
pub struct TickPlan {
    /// The motor is disabled: outputs off, duties zero, every controller,
    /// estimator and the capture timing cleared, nothing else this tick.
    pub shutdown: bool,
    /// First tick after enabling: the output channels are switched on.
    pub enable_channels: bool,
    /// A calibration request was taken: it is cleared and the session
    /// begins anew.
    pub start_calibration: bool,
    /// The mode to run this tick; `None` on shutdown.
    pub run: Option<ControlMode>,
}

/// Abstract state of the coordinator.
pub struct Modes {
    pub mode: ControlMode,
    pub was_enabled: bool,
}

/// State and plan at the start of a tick.
pub open spec fn begin(m: Modes, motor_enabled: bool, calibration_request: bool) -> (
    Modes,
    TickPlan,
) {
    if !motor_enabled {
        (
            Modes { mode: ControlMode::OpenLoop, was_enabled: false },
            TickPlan {
                shutdown: true,
                enable_channels: false,
                start_calibration: false,
                run: None,
            },
        )
    } else {
        let mode = if calibration_request {
            ControlMode::Calibration
        } else {
            m.mode
        };
        (
            Modes { mode, was_enabled: true },
            TickPlan {
                shutdown: false,
                enable_channels: !m.was_enabled,
                start_calibration: calibration_request,
                run: Some(mode),
            },
        )
    }
}

/// The open loop hands over when the Hall code is valid and the ramp has
/// reached its target.
pub open spec fn handover(hall_state: u8, target_reached: bool) -> bool {
    valid_code(hall_state) && target_reached
}

/// Mode after a calibration tick: to closed loop on success, to open loop on
/// a failed tick or a session that ended without success, else none yet.
pub open spec fn after_calibration(tick_failed: bool, completed: bool, success: bool) -> Option<
    ControlMode,
> {
    if tick_failed {
        Some(ControlMode::OpenLoop)
    } else if completed {
        if success {
            Some(ControlMode::ClosedLoopFoc)
        } else {
            Some(ControlMode::OpenLoop)
        }
    } else {
        None
    }
}

/// Owner of the control mode.
pub struct ControlModeCoordinator {
    mode: ControlMode,
    was_enabled: bool,
}

impl View for ControlModeCoordinator {
    type V = Modes;

    closed spec fn view(&self) -> Modes {
        Modes { mode: self.mode, was_enabled: self.was_enabled }
    }
}

impl ControlModeCoordinator {
    /// A coordinator in open loop with the outputs off.
    pub fn new() -> (c: Self)
        ensures
            c@ == (Modes { mode: ControlMode::OpenLoop, was_enabled: false }),
    {
        ControlModeCoordinator { mode: ControlMode::OpenLoop, was_enabled: false }
    }

    /// The mode in force.
    pub fn mode(&self) -> (m: ControlMode)
        ensures
            m == self@.mode,
    {
        self.mode
    }

    /// Start of a tick: takes the enable flag and a pending calibration
    /// request. A disabled motor goes back to open loop and the request, if
    /// any, stays pending.
    pub fn begin_tick(&mut self, motor_enabled: bool, calibration_request: bool) -> (plan:
        TickPlan)
        ensures
            (final(self)@, plan) == begin(old(self)@, motor_enabled, calibration_request),
            final(self)@.mode == next_mode(
                old(self)@.mode,
                ModeEvent::Begin { motor_enabled, calibration_request },
            ),
    {
        if !motor_enabled {
            self.was_enabled = false;
            self.mode = ControlMode::OpenLoop;
            return TickPlan {
                shutdown: true,
                enable_channels: false,
                start_calibration: false,
                run: None,
            };
        }
        let enable_channels = !self.was_enabled;
        self.was_enabled = true;
        if calibration_request {
            self.mode = ControlMode::Calibration;
        }
        TickPlan {
            shutdown: false,
            enable_channels,
            start_calibration: calibration_request,
            run: Some(self.mode),
        }
    }

    /// End of an open-loop tick. Returns whether control passes to closed
    /// loop; if so the speed filter and the target ramp are to be seeded
    /// with the ramp's present speed.
    pub fn finish_open_loop(&mut self, hall_state: u8, target_reached: bool) -> (switched: bool)
        ensures
            switched == (old(self)@.mode == ControlMode::OpenLoop && handover(
                hall_state,
                target_reached,
            )),
            final(self)@ == (Modes {
                mode: if switched {
                    ControlMode::ClosedLoopFoc
                } else {
                    old(self)@.mode
                },
                ..old(self)@
            }),
            final(self)@.mode == next_mode(
                old(self)@.mode,
                ModeEvent::OpenLoopDone { hall_state, target_reached },
            ),
    {
        let valid = 1 <= hall_state && hall_state <= 6;
        if self.mode == ControlMode::OpenLoop && valid && target_reached {
            self.mode = ControlMode::ClosedLoopFoc;
            true
        } else {
            false
        }
    }

    /// Guard of a closed-loop tick: with an invalid Hall code the tick is a
    /// safety stop (outputs zero, integrator cleared, target ramp zero) and
    /// nothing more is computed. The mode stays.
    pub fn closed_loop_may_run(&self, hall_state: u8) -> (ok: bool)
        ensures
            ok == valid_code(hall_state),
    {
        1 <= hall_state && hall_state <= 6
    }

    /// End of a calibration tick: `tick_failed` when the session's update
    /// failed, else whether the session is completed and with what success.
    /// Returns the mode that takes over, if one does.
    pub fn finish_calibration(&mut self, tick_failed: bool, completed: bool, success: bool) -> (next:
        Option<ControlMode>)
        ensures
            next == (if old(self)@.mode == ControlMode::Calibration {
                after_calibration(tick_failed, completed, success)
            } else {
                None
            }),
            final(self)@ == (Modes {
                mode: match next {
                    Some(m) => m,
                    None => old(self)@.mode,
                },
                ..old(self)@
            }),
            final(self)@.mode == next_mode(
                old(self)@.mode,
                ModeEvent::CalibrationDone { tick_failed, completed, success },
            ),
    {
        if self.mode != ControlMode::Calibration {
            return None;
        }
        let next = if tick_failed {
            Some(ControlMode::OpenLoop)
        } else if completed {
            if success {
                Some(ControlMode::ClosedLoopFoc)
            } else {
                Some(ControlMode::OpenLoop)
            }
        } else {
            None
        };
        match next {
            Some(m) => {
                self.mode = m;
            },
            None => {},
        }
        next
    }
}

/// An event that can change the mode.
pub enum ModeEvent {
    /// Start of a tick with the enable flag and a pending request.
    Begin { motor_enabled: bool, calibration_request: bool },
    /// End of an open-loop tick.
    OpenLoopDone { hall_state: u8, target_reached: bool },
    /// End of a calibration tick.
    CalibrationDone { tick_failed: bool, completed: bool, success: bool },
}

/// Mode after an event.
pub open spec fn next_mode(mode: ControlMode, e: ModeEvent) -> ControlMode {
    match e {
        ModeEvent::Begin { motor_enabled, calibration_request } => if !motor_enabled {
            ControlMode::OpenLoop
        } else if calibration_request {
            ControlMode::Calibration
        } else {
            mode
        },
        ModeEvent::OpenLoopDone { hall_state, target_reached } => if mode == ControlMode::OpenLoop
            && handover(hall_state, target_reached) {
            ControlMode::ClosedLoopFoc
        } else {
            mode
        },
        ModeEvent::CalibrationDone { tick_failed, completed, success } => if mode
            == ControlMode::Calibration {
            match after_calibration(tick_failed, completed, success) {
                Some(m) => m,
                None => mode,
            }
        } else {
            mode
        },
    }
}

/// The transition graph. Open loop leaves for closed loop only on a valid
/// Hall code with the ramp at its target, and for calibration only on a
/// request. Calibration leaves for closed loop only on success and for open
/// loop only on failure or disable. Closed loop leaves only on disable or on
/// a calibration request. A disabled motor is always in open loop, and a
/// request on an enabled motor always leads to calibration.
pub proof fn lemma_transition_graph(mode: ControlMode, e: ModeEvent)
    ensures
        mode == ControlMode::OpenLoop && next_mode(mode, e) == ControlMode::ClosedLoopFoc ==> (e
            matches ModeEvent::OpenLoopDone { hall_state, target_reached } && valid_code(hall_state)
            && target_reached),
        mode != ControlMode::Calibration && next_mode(mode, e) == ControlMode::Calibration ==> (e
            matches ModeEvent::Begin { motor_enabled, calibration_request } && motor_enabled
            && calibration_request),
        mode == ControlMode::Calibration && next_mode(mode, e) == ControlMode::ClosedLoopFoc ==> (e
            matches ModeEvent::CalibrationDone { tick_failed, completed, success } && !tick_failed
            && completed && success),
        mode == ControlMode::Calibration && next_mode(mode, e) == ControlMode::OpenLoop ==> ((e
            matches ModeEvent::CalibrationDone { tick_failed, completed, success } && (tick_failed
            || (completed && !success))) || (e matches ModeEvent::Begin { motor_enabled, .. }
            && !motor_enabled)),
        mode == ControlMode::ClosedLoopFoc && next_mode(mode, e) != mode ==> (e matches ModeEvent::Begin {
            motor_enabled,
            calibration_request,
        } && (!motor_enabled || calibration_request)),
        e matches ModeEvent::Begin { motor_enabled, .. } && !motor_enabled ==> next_mode(mode, e)
            == ControlMode::OpenLoop,
        e matches ModeEvent::Begin { motor_enabled, calibration_request } && motor_enabled
            && calibration_request ==> next_mode(mode, e) == ControlMode::Calibration,
{
}

} // verus!
