//! Six-step forced commutation for the open-loop start.
//!
//! Each of the six steps drives one phase with the duty, holds one low and
//! leaves one open. The caller times the steps; the starter keeps the step
//! and hands out its pattern.

use vstd::prelude::*;

verus! {

/// Phase outputs of one commutation step.
#[derive(Clone, Copy, Debug, PartialEq, Eq, Structural)]
pub struct SixStepState {
    /// Step, 0..=5.
    pub step: u8,
    /// Duty of phase U in percent.
    pub duty_u: u16,
    /// Duty of phase V in percent.
    pub duty_v: u16,
    /// Duty of phase W in percent.
    pub duty_w: u16,
    /// Whether phase U is driven.
    pub enable_u: bool,
    /// Whether phase V is driven.
    pub enable_v: bool,
    /// Whether phase W is driven.
    pub enable_w: bool,
}

/// The phase (0 = U, 1 = V, 2 = W) that carries the duty in step `k`:
/// U, U, V, V, W, W.
pub open spec fn high_phase(k: int) -> int {
    (k % 6) / 2
}

/// The phase left open in step `k`: W, V, U, W, V, U.
pub open spec fn open_phase(k: int) -> int {
    2 - (k % 3)
}

/// Outputs of step `step` at duty `duty`.
pub open spec fn step_pattern(step: u8, duty: u16) -> SixStepState {
    let high = high_phase(step as int);
    let open = open_phase(step as int);
    SixStepState {
        step,
        duty_u: if high == 0 { duty } else { 0 },
        duty_v: if high == 1 { duty } else { 0 },
        duty_w: if high == 2 { duty } else { 0 },
        enable_u: open != 0,
        enable_v: open != 1,
        enable_w: open != 2,
    }
}

/// In every step one phase carries the duty, that phase is driven, and of
/// the three phases exactly one is open.
pub proof fn lemma_one_high_one_open(step: u8, duty: u16)
    ensures
        0 <= high_phase(step as int) <= 2,
        0 <= open_phase(step as int) <= 2,
        high_phase(step as int) != open_phase(step as int),
        step_pattern(step, duty).duty_u + step_pattern(step, duty).duty_v + step_pattern(
            step,
            duty,
        ).duty_w == duty,
        (if step_pattern(step, duty).enable_u { 1int } else { 0 }) + (if step_pattern(
            step,
            duty,
        ).enable_v { 1int } else { 0 }) + (if step_pattern(step, duty).enable_w { 1int } else { 0 })
            == 2,
        step_pattern(step, duty).duty_u > 0 ==> step_pattern(step, duty).enable_u,
        step_pattern(step, duty).duty_v > 0 ==> step_pattern(step, duty).enable_v,
        step_pattern(step, duty).duty_w > 0 ==> step_pattern(step, duty).enable_w,
{
}

/// The patterns repeat every six steps: two steps that agree modulo six
/// drive the phases alike.
pub proof fn lemma_pattern_repeats(a: u8, b: u8, duty: u16)
    requires
        a % 6 == b % 6,
    ensures
        step_pattern(b, duty) == (SixStepState { step: b, ..step_pattern(a, duty) }),
{
    assert(a as int % 3 == (a as int % 6) % 3);
    assert(b as int % 3 == (b as int % 6) % 3);
}

/// A duty in percent scaled to a timer whose full duty is `pwm_max`, cut to
/// 16 bits.
pub open spec fn scaled_duty(duty: u16, pwm_max: u16) -> u16 {
    ((duty as int * pwm_max as int / 100) % 65536) as u16
}

/// Scales a duty in percent to the timer's range.
pub fn scale_duty(duty: u16, pwm_max: u16) -> (d: u16)
    ensures
        d == scaled_duty(duty, pwm_max),
        duty <= 100 ==> d == duty as int * pwm_max as int / 100 && d <= pwm_max,
{
    proof {
        assert(duty as int * pwm_max as int <= 65535 * 65535) by (nonlinear_arith)
            requires
                0 <= duty <= 65535,
                0 <= pwm_max <= 65535,
        ;
        if duty <= 100 {
            assert(duty as int * pwm_max as int <= 100 * pwm_max as int) by (nonlinear_arith)
                requires
                    0 <= duty <= 100,
                    0 <= pwm_max,
            ;
        }
    }
    let wide: u32 = (duty as u32) * (pwm_max as u32) / 100;
    (wide % 65536) as u16
}

/// Abstract state of the starter.
pub struct Starter {
    pub current_step: u8,
    pub duty_ratio: u16,
    pub pole_pairs: u8,
}

/// The open-loop starter's step counter.
pub struct OpenLoopSixStep {
    current_step: u8,
    duty_ratio: u16,
    pole_pairs: u8,
}

impl View for OpenLoopSixStep {
    type V = Starter;

    closed spec fn view(&self) -> Starter {
        Starter {
            current_step: self.current_step,
            duty_ratio: self.duty_ratio,
            pole_pairs: self.pole_pairs,
        }
    }
}

impl OpenLoopSixStep {
    /// The starter's invariant: the step is one of the six.
    pub open spec fn wf(&self) -> bool {
        self@.current_step < 6
    }

    /// A starter at step 0.
    pub fn new(duty_ratio: u16, pole_pairs: u8) -> (s: Self)
        ensures
            s.wf(),
            s@ == (Starter { current_step: 0, duty_ratio, pole_pairs }),
    {
        OpenLoopSixStep { current_step: 0, duty_ratio, pole_pairs }
    }

    /// Outputs of step `step` (taken modulo 6) at duty `duty`.
    pub fn get_step_state(step: u8, duty: u16) -> (s: SixStepState)
        ensures
            s == step_pattern(step, duty),
    {
        let k = step % 6;
        if k == 0 {
            SixStepState {
                step,
                duty_u: duty,
                duty_v: 0,
                duty_w: 0,
                enable_u: true,
                enable_v: true,
                enable_w: false,
            }
        } else if k == 1 {
            SixStepState {
                step,
                duty_u: duty,
                duty_v: 0,
                duty_w: 0,
                enable_u: true,
                enable_v: false,
                enable_w: true,
            }
        } else if k == 2 {
            SixStepState {
                step,
                duty_u: 0,
                duty_v: duty,
                duty_w: 0,
                enable_u: false,
                enable_v: true,
                enable_w: true,
            }
        } else if k == 3 {
            SixStepState {
                step,
                duty_u: 0,
                duty_v: duty,
                duty_w: 0,
                enable_u: true,
                enable_v: true,
                enable_w: false,
            }
        } else if k == 4 {
            SixStepState {
                step,
                duty_u: 0,
                duty_v: 0,
                duty_w: duty,
                enable_u: true,
                enable_v: false,
                enable_w: true,
            }
        } else {
            SixStepState {
                step,
                duty_u: 0,
                duty_v: 0,
                duty_w: duty,
                enable_u: false,
                enable_v: true,
                enable_w: true,
            }
        }
    }

    /// One control tick. `period_elapsed` says whether the time since the
    /// last step has reached the step period; if so the starter moves to the
    /// next of the six steps. Returns the outputs of the step it is in.
    pub fn update(&mut self, period_elapsed: bool) -> (s: SixStepState)
        requires
            old(self).wf(),
        ensures
            final(self).wf(),
            final(self)@ == (Starter {
                current_step: if period_elapsed {
                    ((old(self)@.current_step + 1) % 6) as u8
                } else {
                    old(self)@.current_step
                },
                ..old(self)@
            }),
            s == step_pattern(final(self)@.current_step, final(self)@.duty_ratio),
    {
        if period_elapsed {
            self.current_step = (self.current_step + 1) % 6;
        }
        Self::get_step_state(self.current_step, self.duty_ratio)
    }

    /// Back to step 0.
    pub fn reset(&mut self)
        ensures
            final(self).wf(),
            final(self)@ == (Starter { current_step: 0, ..old(self)@ }),
    {
        self.current_step = 0;
    }

    /// The step the starter is in.
    pub fn get_current_step(&self) -> (k: u8)
        ensures
            k == self@.current_step,
    {
        self.current_step
    }

    /// The duty in percent that the driven phase gets.
    pub fn duty_ratio(&self) -> (d: u16)
        ensures
            d == self@.duty_ratio,
    {
        self.duty_ratio
    }

    /// Pole pairs of the motor.
    pub fn pole_pairs(&self) -> (n: u8)
        ensures
            n == self@.pole_pairs,
    {
        self.pole_pairs
    }
}

} // verus!
