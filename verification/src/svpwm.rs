//! Space-vector modulation: the decisions that need no arithmetic on the
//! voltages themselves.
//!
//! With `x`, `y`, `z` the projections of the normalised voltage vector on
//! the three sector axes, the sector follows from their signs alone, and the
//! sector picks one of three combinations of `x`, `y`, `z` for the phases.

use vstd::prelude::*;

verus! {

/// The sector (1..=6) of a voltage vector, from whether `x`, `y` and `z`
/// are non-negative.
pub open spec fn sector_of(x: bool, y: bool, z: bool) -> u8 {
    if y && z {
        2
    } else if !y && !z {
        5
    } else if y {
        if x {
            1
        } else {
            6
        }
    } else {
        if x {
            3
        } else {
            4
        }
    }
}

/// Which combination of the projections gives the phase values.
#[derive(Clone, Copy, Debug, PartialEq, Eq, Structural)]
pub enum PhaseMix {
    /// Sectors 1 and 4: `x - z`, `x + z`, `-x + z`.
    XZ,
    /// Sectors 2 and 5: `y - z`, `y + z`, `-y - z`.
    YZ,
    /// Sectors 3 and 6: `y - x`, `-y + x`, `-y - x`.
    YX,
}

/// The combination of a sector; `None` for a number that is no sector.
pub open spec fn mix_of(sector: u8) -> Option<PhaseMix> {
    if sector == 1 || sector == 4 {
        Some(PhaseMix::XZ)
    } else if sector == 2 || sector == 5 {
        Some(PhaseMix::YZ)
    } else if sector == 3 || sector == 6 {
        Some(PhaseMix::YX)
    } else {
        None
    }
}

/// Sector of a voltage vector from the signs of its three projections.
pub fn svpwm_sector(x_nonneg: bool, y_nonneg: bool, z_nonneg: bool) -> (sector: u8)
    ensures
        sector == sector_of(x_nonneg, y_nonneg, z_nonneg),
        1 <= sector <= 6,
{
    if y_nonneg && z_nonneg {
        2
    } else if !y_nonneg && !z_nonneg {
        5
    } else if x_nonneg && y_nonneg {
        1
    } else if x_nonneg {
        3
    } else if y_nonneg {
        6
    } else {
        4
    }
}

/// Combination of projections for a sector.
pub fn phase_mix(sector: u8) -> (mix: Option<PhaseMix>)
    ensures
        mix == mix_of(sector),
{
    if sector == 1 || sector == 4 {
        Some(PhaseMix::XZ)
    } else if sector == 2 || sector == 5 {
        Some(PhaseMix::YZ)
    } else if sector == 3 || sector == 6 {
        Some(PhaseMix::YX)
    } else {
        None
    }
}

/// Every combination of signs has a sector, every sector has a combination
/// of projections, and opposite vectors lie three sectors apart whenever no
/// projection is zero.
pub proof fn lemma_sectors(x: bool, y: bool, z: bool)
    ensures
        1 <= sector_of(x, y, z) <= 6,
        mix_of(sector_of(x, y, z)) is Some,
        !(y == z && x != y) ==> (sector_of(!x, !y, !z) + 3 - sector_of(x, y, z)) % 6 == 0,
        mix_of(sector_of(!x, !y, !z)) == mix_of(sector_of(x, y, z)) || (y == z && x != y),
{
}

/// The duties when the bus voltage is not positive: half of full duty on
/// every phase.
pub fn safe_duties(max_duty: u16) -> (d: (u16, u16, u16))
    ensures
        d == (((max_duty / 2) as u16, (max_duty / 2) as u16, (max_duty / 2) as u16)),
{
    (max_duty / 2, max_duty / 2, max_duty / 2)
}

/// A rounded duty limited to `0..=max_duty`.
pub open spec fn limited_duty(rounded: i32, max_duty: u16) -> u16 {
    if rounded < 0 {
        0
    } else if rounded > max_duty {
        max_duty
    } else {
        rounded as u16
    }
}

/// Limits a rounded duty to what the timer takes.
pub fn clamp_duty(rounded: i32, max_duty: u16) -> (d: u16)
    ensures
        d == limited_duty(rounded, max_duty),
        d <= max_duty,
{
    if rounded < 0 {
        0
    } else if rounded > max_duty as i32 {
        max_duty
    } else {
        rounded as u16
    }
}

} // verus!
