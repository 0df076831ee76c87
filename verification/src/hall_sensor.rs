//! Hall code validation and commutation-index tracking.

use vstd::prelude::*;

verus! {

/// Marker stored for a Hall code that has no commutation index.
pub const INVALID_INDEX: u8 = 255;

/// Raw Hall code (0..=7) to commutation index; `INVALID_INDEX` for 0 and 7.
pub const HALL_STATE_TABLE: [u8; 8] = [255, 0, 2, 1, 4, 5, 3, 255];

/// A raw Hall code is valid when exactly one or two sensors are active.
pub open spec fn valid_code(state: u8) -> bool {
    1 <= state <= 6
}

/// The commutation index of a raw Hall code, in physical commutation order
/// 1, 3, 2, 6, 4, 5.
pub open spec fn index_of(raw: u8) -> u8 {
    if raw == 1 {
        0
    } else if raw == 3 {
        1
    } else if raw == 2 {
        2
    } else if raw == 6 {
        3
    } else if raw == 4 {
        4
    } else if raw == 5 {
        5
    } else {
        INVALID_INDEX
    }
}

/// Looks a raw Hall code up in the commutation table.
pub fn normalized_index(raw: u8) -> (idx: u8)
    ensures
        idx == index_of(raw),
        valid_code(raw) <==> idx < 6,
{
    if raw < 8 {
        HALL_STATE_TABLE[raw as usize]
    } else {
        INVALID_INDEX
    }
}


/// The raw Hall code that has commutation index `idx` (inverse of `index_of`
/// on valid codes).
pub open spec fn code_of(idx: u8) -> u8 {
    if idx == 0 {
        1
    } else if idx == 1 {
        3
    } else if idx == 2 {
        2
    } else if idx == 3 {
        6
    } else if idx == 4 {
        4
    } else {
        5
    }
}

/// The commutation table maps the valid Hall codes one-to-one onto the six
/// commutation indices, and the two codes that no healthy sensor produces
/// (all low, all high) are not valid.
pub proof fn lemma_index_bijection()
    ensures
        forall|raw: u8| valid_code(raw) ==> index_of(raw) < 6,
        forall|a: u8, b: u8|
            valid_code(a) && valid_code(b) && index_of(a) == index_of(b) ==> a == b,
        forall|idx: u8| idx < 6 ==> valid_code(code_of(idx)) && index_of(code_of(idx)) == idx,
        forall|raw: u8| valid_code(raw) ==> code_of(index_of(raw)) == raw,
        !valid_code(0),
        !valid_code(7),
        forall|raw: u8| !valid_code(raw) ==> index_of(raw) == INVALID_INDEX,
{
}

/// Electrical angle of the centre of a Hall sector in whole degrees
/// (30, 90, .. 330), for the sector-centre estimate used without a
/// commutation table.
pub open spec fn sector_center_deg(raw: u8) -> Option<u16> {
    if valid_code(raw) {
        Some((60 * raw - 30) as u16)
    } else {
        None
    }
}

/// Sector-centre angle of a raw Hall code in degrees, `None` for codes 0 and 7
/// and anything above.
pub fn hall_angle_deg(raw: u8) -> (deg: Option<u16>)
    ensures
        deg == sector_center_deg(raw),
{
    if 1 <= raw && raw <= 6 {
        let r: u16 = raw as u16;
        Some(60 * r - 30)
    } else {
        None
    }
}

/// Abstract state of the commutation-index tracker.
pub struct Track {
    /// Last commutation index seen on a moving rotor, `INVALID_INDEX` before
    /// the first one.
    pub prev: u8,
    /// Index of the first step of the current electrical revolution.
    pub base: int,
    /// Hall steps per mechanical revolution.
    pub max: int,
    /// Pole pairs of the motor.
    pub pole_pairs: int,
    /// Whether the angle is interpolated between edges.
    pub interpolate: bool,
}

/// Well-formed tracker states: the base is the start of one of the
/// `pole_pairs` electrical revolutions of a mechanical turn.
pub open spec fn track_wf(t: Track) -> bool {
    &&& 1 <= t.pole_pairs <= 255
    &&& t.max == 6 * t.pole_pairs
    &&& 0 <= t.base < t.max
    &&& t.base % 6 == 0
    &&& (t.prev < 6 || t.prev == INVALID_INDEX)
}

/// An edge is a change of commutation index after the first sample.
pub open spec fn is_edge(prev: u8, idx: u8) -> bool {
    prev != INVALID_INDEX && idx != prev
}

/// Base after seeing index `idx` following `prev`: one electrical revolution
/// forward on 5 -> 0, one back on 0 -> 5, modulo the mechanical turn.
pub open spec fn next_base(base: int, max: int, prev: u8, idx: u8) -> int {
    if prev == 5 && idx == 0 {
        (base + 6) % max
    } else if prev == 0 && idx == 5 {
        (base - 6) % max
    } else {
        base
    }
}

/// On a well-formed base, stepping a revolution forward or back wraps at the
/// ends of the mechanical turn and keeps the base a multiple of six.
pub proof fn lemma_next_base(base: int, max: int, prev: u8, idx: u8)
    requires
        6 <= max,
        max % 6 == 0,
        0 <= base < max,
        base % 6 == 0,
    ensures
        0 <= next_base(base, max, prev, idx) < max,
        next_base(base, max, prev, idx) % 6 == 0,
        prev == 5 && idx == 0 ==> next_base(base, max, prev, idx) == (if base + 6 >= max {
            0
        } else {
            base + 6
        }),
        prev == 0 && idx == 5 ==> next_base(base, max, prev, idx) == (if base < 6 {
            max - 6
        } else {
            base - 6
        }),
{
    assert(base + 6 <= max);
    if base + 6 == max {
        assert((base + 6) % max == 0) by (nonlinear_arith)
            requires
                base + 6 == max,
                max > 0,
        ;
    } else {
        assert((base + 6) % max == base + 6) by (nonlinear_arith)
            requires
                0 <= base + 6 < max,
        ;
    }
    if base < 6 {
        assert(base == 0);
        assert((base - 6) % max == max - 6) by (nonlinear_arith)
            requires
                base == 0,
                max >= 6,
        ;
    } else {
        assert((base - 6) % max == base - 6) by (nonlinear_arith)
            requires
                0 <= base - 6 < max,
        ;
    }
}

/// What one control tick learned from the Hall capture.
#[derive(Clone, Copy, Debug, PartialEq, Eq, Structural)]
pub enum HallReading {
    /// The raw code was not in 1..=6: position and speed estimates are frozen.
    Invalid,
    /// Valid code, but no edge within the capture timeout (or no period yet):
    /// speed is zero and the angle is the discrete one of `hall_state_idx`.
    Stalled { hall_state_idx: u32 },
    /// Valid code on a turning rotor. `edge` tells whether the commutation
    /// index changed since the previous moving sample.
    Moving { hall_state_idx: u32, edge: bool },
}

/// Tracker state and reading after one sample.
pub open spec fn track_step(t: Track, raw: u8, period_cycles: u32, timed_out: bool) -> (
    Track,
    HallReading,
) {
    let idx = index_of(raw);
    if !valid_code(raw) {
        (t, HallReading::Invalid)
    } else if timed_out || period_cycles == 0 {
        (t, HallReading::Stalled { hall_state_idx: (t.base + idx) as u32 })
    } else {
        let base = if is_edge(t.prev, idx) {
            next_base(t.base, t.max, t.prev, idx)
        } else {
            t.base
        };
        (
            Track { prev: idx, base, ..t },
            HallReading::Moving {
                hall_state_idx: (base + idx) as u32,
                edge: is_edge(t.prev, idx),
            },
        )
    }
}

/// A raw code outside 1..=6 never changes the tracker, whatever period and
/// stall flag come with it, and neither does a sample of a stalled rotor.
pub proof fn lemma_invalid_code_freezes(t: Track, raw: u8, period_cycles: u32, timed_out: bool)
    ensures
        !valid_code(raw) ==> track_step(t, raw, period_cycles, timed_out) == (
            t,
            HallReading::Invalid,
        ),
        timed_out || period_cycles == 0 ==> track_step(t, raw, period_cycles, timed_out).0 == t,
        track_step(t, raw, period_cycles, timed_out).1 is Invalid <==> !valid_code(raw),
{
}

/// A sample keeps the tracker well-formed, and the Hall step it reports
/// lies within the mechanical turn and has the commutation index of the
/// code.
pub proof fn lemma_step_in_range(t: Track, raw: u8, period_cycles: u32, timed_out: bool)
    requires
        track_wf(t),
    ensures
        track_wf(track_step(t, raw, period_cycles, timed_out).0),
        match track_step(t, raw, period_cycles, timed_out).1 {
            HallReading::Invalid => true,
            HallReading::Stalled { hall_state_idx } => hall_state_idx < t.max && hall_state_idx % 6
                == index_of(raw),
            HallReading::Moving { hall_state_idx, .. } => hall_state_idx < t.max && hall_state_idx
                % 6 == index_of(raw),
        },
{
    let idx = index_of(raw);
    if valid_code(raw) {
        lemma_next_base(t.base, t.max, t.prev, idx);
        let base = track_step(t, raw, period_cycles, timed_out).0.base;
        assert(base % 6 == 0 && 0 <= base && base + 6 <= t.max);
        assert((base + idx) % 6 == idx as int);
    }
}

/// Discrete part of the Hall position estimator: which of the
/// `6 * pole_pairs` Hall steps of a mechanical revolution the rotor is in.
pub struct HallSensor {
    prev_state: u8,
    hall_idx_base: u32,
    hall_idx_max: u32,
    pole_pairs: u8,
    enable_interpolation: bool,
}

impl View for HallSensor {
    type V = Track;

    closed spec fn view(&self) -> Track {
        Track {
            prev: self.prev_state,
            base: self.hall_idx_base as int,
            max: self.hall_idx_max as int,
            pole_pairs: self.pole_pairs as int,
            interpolate: self.enable_interpolation,
        }
    }
}

impl HallSensor {
    /// The tracker's invariant.
    pub open spec fn wf(&self) -> bool {
        track_wf(self@)
    }

    /// A tracker at the start of a mechanical revolution, interpolation on.
    /// A motor has at least one pole pair.
    pub fn new(pole_pairs: u8) -> (s: Self)
        requires
            pole_pairs >= 1,
        ensures
            s.wf(),
            s@ == (Track {
                prev: INVALID_INDEX,
                base: 0,
                max: 6 * pole_pairs,
                pole_pairs: pole_pairs as int,
                interpolate: true,
            }),
    {
        HallSensor {
            prev_state: INVALID_INDEX,
            hall_idx_base: 0,
            hall_idx_max: (pole_pairs as u32) * 6,
            pole_pairs,
            enable_interpolation: true,
        }
    }

    /// Whether a raw Hall code is one of the six valid ones.
    pub fn is_valid_state(state: u8) -> (ok: bool)
        ensures
            ok == valid_code(state),
    {
        1 <= state && state <= 6
    }

    /// Takes one sample of the Hall capture: the raw code, the cycle count
    /// between the last two edges and the stall flag.
    pub fn update(&mut self, raw_hall_state: u8, period_cycles: u32, timed_out: bool) -> (r:
        HallReading)
        requires
            old(self).wf(),
        ensures
            final(self).wf(),
            (final(self)@, r) == track_step(old(self)@, raw_hall_state, period_cycles, timed_out),
    {
        if !Self::is_valid_state(raw_hall_state) {
            return HallReading::Invalid;
        }
        let idx = normalized_index(raw_hall_state);
        if timed_out || period_cycles == 0 {
            return HallReading::Stalled { hall_state_idx: self.hall_idx_base + (idx as u32) };
        }
        let edge = self.prev_state != INVALID_INDEX && idx != self.prev_state;
        proof {
            lemma_next_base(
                self.hall_idx_base as int,
                self.hall_idx_max as int,
                self.prev_state,
                idx,
            );
        }
        if edge {
            if idx == 0 && self.prev_state == 5 {
                self.hall_idx_base = self.hall_idx_base + 6;
                if self.hall_idx_base >= self.hall_idx_max {
                    self.hall_idx_base = 0;
                }
            } else if idx == 5 && self.prev_state == 0 {
                if self.hall_idx_base < 6 {
                    self.hall_idx_base = self.hall_idx_max - 6;
                } else {
                    self.hall_idx_base = self.hall_idx_base - 6;
                }
            }
        }
        self.prev_state = idx;
        HallReading::Moving { hall_state_idx: self.hall_idx_base + (idx as u32), edge }
    }

    /// Forgets the position: back to the state after `new`, keeping the
    /// interpolation setting.
    pub fn reset(&mut self)
        ensures
            final(self)@ == (Track { prev: INVALID_INDEX, base: 0, ..old(self)@ }),
            old(self).wf() ==> final(self).wf(),
    {
        self.prev_state = INVALID_INDEX;
        self.hall_idx_base = 0;
    }

    /// Switches interpolation between edges on or off.
    pub fn set_interpolation(&mut self, enable: bool)
        ensures
            final(self)@ == (Track { interpolate: enable, ..old(self)@ }),
    {
        self.enable_interpolation = enable;
    }

    /// Whether the angle is interpolated between edges.
    pub fn is_interpolation_enabled(&self) -> (on: bool)
        ensures
            on == self@.interpolate,
    {
        self.enable_interpolation
    }

    /// Hall steps per mechanical revolution.
    pub fn hall_idx_max(&self) -> (n: u32)
        ensures
            n == self@.max,
    {
        self.hall_idx_max
    }

    /// First Hall step of the current electrical revolution.
    pub fn hall_idx_base(&self) -> (n: u32)
        ensures
            n == self@.base,
    {
        self.hall_idx_base
    }

    /// Pole pairs the tracker was made for.
    pub fn pole_pairs(&self) -> (n: u8)
        ensures
            n == self@.pole_pairs,
    {
        self.pole_pairs
    }
}

} // verus!
