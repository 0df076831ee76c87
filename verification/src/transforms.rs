//! Cosine and sine of the rotor angle for the inverse Park transform.
//!
//! The angle is a 32-bit phase: the whole range of `i32` is one turn, with
//! `i32::MIN` at minus half a turn. Cosine and sine come back scaled so that
//! the range of `i32` spans -1 to 1.

use vstd::prelude::*;

verus! {

/// Cosine and sine of a phase, as the fixed-point routine of the `idsp`
/// crate computes them from its table.
pub uninterp spec fn cossin_value(phase: i32) -> (i32, i32);

/// Calls `idsp::cossin`. The routine reads a constant table and its
/// argument, has no state and no failure case, so all that is claimed is
/// that its result is a function of the phase.
#[verifier::external_body]
fn cossin(phase: i32) -> (r: (i32, i32))
    ensures
        r == cossin_value(phase),
{
    idsp::cossin(phase)
}

/// Cosine and sine of the phase `phase`, in this order.
pub fn phase_cos_sin(phase: i32) -> (r: (i32, i32))
    ensures
        r == cossin_value(phase),
{
    cossin(phase)
}

} // verus!
