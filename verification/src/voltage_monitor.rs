//! State of the bus-voltage monitor as the other tasks see it.

use vstd::prelude::*;

verus! {

/// Filtered bus voltage, as single-precision bits, and its two fault flags.
#[derive(Clone, Copy, Debug, PartialEq, Eq, Structural)]
pub struct VoltageMonitorState {
    pub voltage: u32,
    pub overvoltage: bool,
    pub undervoltage: bool,
}

impl VoltageMonitorState {
    /// Zero volts, no fault.
    pub fn new() -> (s: Self)
        ensures
            s == (VoltageMonitorState { voltage: 0, overvoltage: false, undervoltage: false }),
    {
        VoltageMonitorState { voltage: 0, overvoltage: false, undervoltage: false }
    }

    /// Whether the voltage is within its limits.
    pub fn is_voltage_ok(&self) -> (ok: bool)
        ensures
            ok == (!self.overvoltage && !self.undervoltage),
    {
        !self.overvoltage && !self.undervoltage
    }
}

} // verus!
