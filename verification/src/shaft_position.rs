//! Whole turns of a shaft whose angle within the turn is tracked elsewhere.

use vstd::prelude::*;

verus! {

/// How the angle within the turn moved between two samples.
#[derive(Clone, Copy, Debug, PartialEq, Eq, Structural)]
pub enum Crossing {
    /// It stayed within the turn.
    Within,
    /// It fell by more than half a turn: the shaft passed the end of the
    /// turn going forward.
    Forward,
    /// It rose by more than half a turn: the shaft passed the start of the
    /// turn going backward.
    Backward,
}

/// Turns that a crossing adds.
pub open spec fn turns_of(c: Crossing) -> int {
    match c {
        Crossing::Within => 0,
        Crossing::Forward => 1,
        Crossing::Backward => -1,
    }
}

/// Count of whole turns, with the direction flag of the sensor.
#[derive(Clone, Copy, Debug, PartialEq, Eq, Structural)]
pub struct ShaftPosition {
    /// Whole turns, negative backward.
    pub rotations: i32,
    /// Whether the sensor counts against the drive direction.
    pub inversed: bool,
}

impl ShaftPosition {
    /// Zero turns, direction not inverted.
    pub fn new() -> (p: Self)
        ensures
            p == (ShaftPosition { rotations: 0, inversed: false }),
    {
        ShaftPosition { rotations: 0, inversed: false }
    }

    /// Back to zero turns; the direction flag stays.
    pub fn reset(&mut self)
        ensures
            final(self).rotations == 0,
            final(self).inversed == old(self).inversed,
    {
        self.rotations = 0;
    }

    /// Sets the direction flag.
    pub fn set_inversed(&mut self, inversed: bool)
        ensures
            final(self).inversed == inversed,
            final(self).rotations == old(self).rotations,
    {
        self.inversed = inversed;
    }

    /// The direction flag.
    pub fn is_inversed(&self) -> (inv: bool)
        ensures
            inv == self.inversed,
    {
        self.inversed
    }

    /// Takes a new sample of the sensor angle, of which `crossing` says how
    /// it lies to the previous one. The turn count changes only on a
    /// crossing. It must not leave the range of the counter.
    pub fn update_shaft_angle(&mut self, crossing: Crossing)
        requires
            i32::MIN <= old(self).rotations + turns_of(crossing) <= i32::MAX,
        ensures
            final(self).rotations == old(self).rotations + turns_of(crossing),
            final(self).inversed == old(self).inversed,
    {
        match crossing {
            Crossing::Within => {},
            Crossing::Forward => {
                self.rotations = self.rotations + 1;
            },
            Crossing::Backward => {
                self.rotations = self.rotations - 1;
            },
        }
    }

    /// Advances the position by an angle that took it over `turns` turn
    /// boundaries, negative backward.
    pub fn increment(&mut self, turns: i32)
        requires
            i32::MIN <= old(self).rotations + turns <= i32::MAX,
        ensures
            final(self).rotations == old(self).rotations + turns,
            final(self).inversed == old(self).inversed,
    {
        self.rotations = self.rotations + turns;
    }

    /// As `update_shaft_angle`, for any count: `false`, and nothing changed,
    /// where the counter could not hold the result.
    pub fn try_update_shaft_angle(&mut self, crossing: Crossing) -> (done: bool)
        ensures
            done == (i32::MIN <= old(self).rotations + turns_of(crossing) <= i32::MAX),
            done ==> final(self).rotations == old(self).rotations + turns_of(crossing),
            !done ==> final(self).rotations == old(self).rotations,
            final(self).inversed == old(self).inversed,
    {
        let fits = match crossing {
            Crossing::Within => true,
            Crossing::Forward => self.rotations < i32::MAX,
            Crossing::Backward => self.rotations > i32::MIN,
        };
        if fits {
            self.update_shaft_angle(crossing);
        }
        fits
    }
}

} // verus!
