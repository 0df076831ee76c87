//! Figures of a timing comparison between two routines.

use vstd::prelude::*;

verus! {

/// Cycles per call of the two routines and how many times, in tenths, the
/// first is faster than the second.
#[derive(Clone, Copy, Debug, PartialEq, Eq, Structural)]
pub struct BenchmarkReport {
    /// Cycles per call of the fixed-point routine.
    pub cycles_per_call_idsp: u32,
    /// Cycles per call of the floating-point routine.
    pub cycles_per_call_libm: u32,
    /// Ratio of the second to the first times ten, rounded down; `None`
    /// when the first measured zero cycles.
    pub speedup_x10: Option<u64>,
}

/// The speed-up in tenths.
pub open spec fn speedup_of(idsp: u32, libm: u32) -> Option<u64> {
    if idsp == 0 {
        None
    } else {
        Some((libm as int * 10 / (idsp as int)) as u64)
    }
}

/// Works out the figures of a run of `iterations` calls each, which took
/// `ticks_idsp` and `ticks_libm` cycles. `None` for a run of no calls.
pub fn run_inverse_park_benchmark(iterations: u32, ticks_idsp: u32, ticks_libm: u32) -> (r: Option<
    BenchmarkReport,
>)
    ensures
        iterations == 0 ==> r is None,
        iterations > 0 ==> r == Some(
            BenchmarkReport {
                cycles_per_call_idsp: ticks_idsp / iterations,
                cycles_per_call_libm: ticks_libm / iterations,
                speedup_x10: speedup_of(ticks_idsp / iterations, ticks_libm / iterations),
            },
        ),
{
    if iterations == 0 {
        return None;
    }
    let cycles_per_call_idsp = ticks_idsp / iterations;
    let cycles_per_call_libm = ticks_libm / iterations;
    let speedup_x10 = if cycles_per_call_idsp > 0 {
        Some((cycles_per_call_libm as u64) * 10 / (cycles_per_call_idsp as u64))
    } else {
        None
    };
    Some(BenchmarkReport { cycles_per_call_idsp, cycles_per_call_libm, speedup_x10 })
}

} // verus!
