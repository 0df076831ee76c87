//! Hall edge capture: what the edge timer's interrupt records.
//!
//! The timer counts cycles, restarts on every Hall edge and overflows every
//! 65536 cycles. The interrupt routine hands the flags and registers it read
//! to `tim4_irq_handler`, which keeps the capture record.

use vstd::prelude::*;

verus! {

/// Overflow ticks without an edge after which the rotor counts as stalled
/// (about one second).
pub const TIMEOUT_OVERFLOWS: u32 = 2600;

/// The capture record shared between the interrupt routine and the tasks.
#[derive(Clone, Copy, Debug, PartialEq, Eq, Structural)]
pub struct HallCapture {
    /// Raw three-bit Hall code at the last edge; 0 and 7 are stored as read.
    pub hall_state: u8,
    /// Timer count captured at the last edge.
    pub last_capture: u32,
    /// Overflow ticks counted before the last edge.
    pub last_overflow: u32,
    /// Overflow ticks since the last edge.
    pub overflow_counter: u32,
    /// Cycles between the last two edges; 0 while stalled.
    pub period_cycles: u32,
    /// Set when no edge came within the timeout.
    pub timeout_flag: bool,
}

/// Raw Hall code from the three sensor lines, line 1 in bit 0.
pub open spec fn hall_code(h1: bool, h2: bool, h3: bool) -> u8 {
    ((if h3 { 4int } else { 0 }) + (if h2 { 2int } else { 0 }) + (if h1 { 1int } else { 0 })) as u8
}

/// Cycles since the previous edge: the overflow ticks in the upper half-word
/// over the captured count, as far as 32 bits hold it.
pub open spec fn period_of(overflow: u32, capture: u16) -> u32 {
    ((overflow as int * 65536 + capture as int) % 0x1_0000_0000) as u32
}

/// The record after an overflow tick: one more tick counted (wrapping), and
/// past the timeout the stall flag set and the period zeroed.
pub open spec fn after_overflow(c: HallCapture) -> HallCapture {
    let count = if c.overflow_counter == u32::MAX {
        0u32
    } else {
        (c.overflow_counter + 1) as u32
    };
    if count > TIMEOUT_OVERFLOWS {
        HallCapture { overflow_counter: count, timeout_flag: true, period_cycles: 0, ..c }
    } else {
        HallCapture { overflow_counter: count, ..c }
    }
}

/// The record after a Hall edge with the given captured count and sensor
/// lines: code and period stored, tick counter and stall flag cleared.
pub open spec fn after_edge(c: HallCapture, capture: u16, h1: bool, h2: bool, h3: bool) -> HallCapture {
    HallCapture {
        hall_state: hall_code(h1, h2, h3),
        last_capture: capture as u32,
        last_overflow: c.overflow_counter,
        overflow_counter: 0,
        period_cycles: period_of(c.overflow_counter, capture),
        timeout_flag: false,
    }
}

/// The record after one interrupt: the overflow part first, then the edge.
pub open spec fn after_irq(
    c: HallCapture,
    update_flag: bool,
    capture_flag: bool,
    capture: u16,
    h1: bool,
    h2: bool,
    h3: bool,
) -> HallCapture {
    let c1 = if update_flag {
        after_overflow(c)
    } else {
        c
    };
    if capture_flag {
        after_edge(c1, capture, h1, h2, h3)
    } else {
        c1
    }
}

impl HallCapture {
    /// The record before any edge: code 0, nothing counted, not stalled.
    pub fn new() -> (c: Self)
        ensures
            c == (HallCapture {
                hall_state: 0,
                last_capture: 0,
                last_overflow: 0,
                overflow_counter: 0,
                period_cycles: 0,
                timeout_flag: false,
            }),
    {
        HallCapture {
            hall_state: 0,
            last_capture: 0,
            last_overflow: 0,
            overflow_counter: 0,
            period_cycles: 0,
            timeout_flag: false,
        }
    }

    /// Counts one timer overflow and detects a stall.
    pub fn on_overflow(&mut self)
        ensures
            *final(self) == after_overflow(*old(self)),
    {
        self.overflow_counter = self.overflow_counter.wrapping_add(1);
        if self.overflow_counter > TIMEOUT_OVERFLOWS {
            self.timeout_flag = true;
            self.period_cycles = 0;
        }
    }

    /// Records a Hall edge.
    pub fn on_edge(&mut self, capture: u16, h1: bool, h2: bool, h3: bool)
        ensures
            *final(self) == after_edge(*old(self), capture, h1, h2, h3),
    {
        let overflow = self.overflow_counter;
        let b1: u8 = if h1 { 1 } else { 0 };
        let b2: u8 = if h2 { 1 } else { 0 };
        let b3: u8 = if h3 { 1 } else { 0 };
        let hall_state: u8 = (b3 << 2) | (b2 << 1) | b1;
        let cap: u32 = capture as u32;
        let period: u32 = (overflow << 16) | cap;
        proof {
            assert(hall_state == b3 * 4 + b2 * 2 + b1) by (bit_vector)
                requires
                    hall_state == (b3 << 2) | (b2 << 1) | b1,
                    b1 <= 1,
                    b2 <= 1,
                    b3 <= 1,
            ;
            assert(period == ((overflow as int * 65536 + cap as int) % 0x1_0000_0000) as u32)
                by (bit_vector)
                requires
                    period == (overflow << 16) | cap,
                    cap < 65536,
            ;
        }
        self.hall_state = hall_state;
        self.last_capture = cap;
        self.last_overflow = overflow;
        self.period_cycles = period;
        self.overflow_counter = 0;
        self.timeout_flag = false;
    }
}

/// One run of the timer interrupt: `update_flag` and `capture_flag` are the
/// two status flags, `capture` the capture register and `h1..h3` the sensor
/// lines as read.
pub fn tim4_irq_handler(
    c: &mut HallCapture,
    update_flag: bool,
    capture_flag: bool,
    capture: u16,
    h1: bool,
    h2: bool,
    h3: bool,
)
    ensures
        *final(c) == after_irq(*old(c), update_flag, capture_flag, capture, h1, h2, h3),
{
    if update_flag {
        c.on_overflow();
    }
    if capture_flag {
        c.on_edge(capture, h1, h2, h3);
    }
}

/// Raw Hall code of the last edge.
pub fn get_hall_state(c: &HallCapture) -> (s: u8)
    ensures
        s == c.hall_state,
{
    c.hall_state
}

/// Cycles between the last two edges, 0 while stalled.
pub fn get_period_cycles(c: &HallCapture) -> (p: u32)
    ensures
        p == c.period_cycles,
{
    c.period_cycles
}

/// Whether the rotor counts as stalled.
pub fn is_timeout(c: &HallCapture) -> (t: bool)
    ensures
        t == c.timeout_flag,
{
    c.timeout_flag
}

/// Clears the timing of the record when the motor is stopped; the last Hall
/// code stays.
pub fn reset_state(c: &mut HallCapture)
    ensures
        *final(c) == (HallCapture {
            last_capture: 0,
            last_overflow: 0,
            overflow_counter: 0,
            period_cycles: 0,
            timeout_flag: false,
            ..*old(c)
        }),
{
    c.last_capture = 0;
    c.last_overflow = 0;
    c.overflow_counter = 0;
    c.period_cycles = 0;
    c.timeout_flag = false;
}


/// The record after `n` overflow ticks in a row.
pub open spec fn after_overflows(c: HallCapture, n: nat) -> HallCapture
    decreases n,
{
    if n == 0 {
        c
    } else {
        after_overflow(after_overflows(c, (n - 1) as nat))
    }
}

/// After an edge, `n` overflow ticks without another edge leave the Hall
/// code as it was; the rotor counts as stalled exactly when `n` is past the
/// timeout, and from then on the period reads zero, while up to then it is
/// the period that the edge recorded.
pub proof fn lemma_stall_after_timeout(
    c: HallCapture,
    capture: u16,
    h1: bool,
    h2: bool,
    h3: bool,
    n: nat,
)
    requires
        n <= u32::MAX,
    ensures
        after_overflows(after_edge(c, capture, h1, h2, h3), n).overflow_counter == n,
        after_overflows(after_edge(c, capture, h1, h2, h3), n).hall_state == hall_code(h1, h2, h3),
        after_overflows(after_edge(c, capture, h1, h2, h3), n).timeout_flag == (n
            > TIMEOUT_OVERFLOWS),
        after_overflows(after_edge(c, capture, h1, h2, h3), n).period_cycles == (if n
            > TIMEOUT_OVERFLOWS {
            0
        } else {
            period_of(c.overflow_counter, capture)
        }),
    decreases n,
{
    if n > 0 {
        lemma_stall_after_timeout(c, capture, h1, h2, h3, (n - 1) as nat);
    }
}

/// An edge ends a stall, whatever the record held.
pub proof fn lemma_edge_clears_timeout(c: HallCapture, capture: u16, h1: bool, h2: bool, h3: bool)
    ensures
        !after_edge(c, capture, h1, h2, h3).timeout_flag,
        after_edge(c, capture, h1, h2, h3).overflow_counter == 0,
        c.overflow_counter < 65536 ==> after_edge(c, capture, h1, h2, h3).period_cycles
            == c.overflow_counter * 65536 + capture,
        hall_code(h1, h2, h3) <= 7,
{
    if c.overflow_counter < 65536 {
        assert(c.overflow_counter * 65536 + capture <= 0xFFFF_FFFF);
    }
}

} // verus!
