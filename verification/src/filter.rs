//! A one-pole high-pass filter over three axes.

use vstd::prelude::*;
use crate::fixed::{spec_trunc_div, ONE};

verus! {

/// What a filter holds between two samples: its coefficient, the last sample
/// it was given and the last sample it gave back, each axis in millionths.
pub struct FilterState {
    pub alpha: u32,
    pub prev_input: (i32, i32, i32),
    pub prev_output: (i32, i32, i32),
}

/// `v` held to the range of an `i32`.
pub open spec fn spec_clamp_i32(v: int) -> int {
    if v < i32::MIN {
        i32::MIN as int
    } else if v > i32::MAX {
        i32::MAX as int
    } else {
        v
    }
}

/// One axis of the filter: `alpha * (prev_out + input - prev_in)`, rounded
/// towards zero and held to the range of an `i32`.
pub open spec fn spec_high_pass(alpha: int, prev_in: int, prev_out: int, input: int) -> int {
    spec_clamp_i32(spec_trunc_div(alpha * (prev_out + input - prev_in), ONE as int))
}

/// The filtered sample that a filter in state `s` gives for `input`.
pub open spec fn spec_filter_output(s: FilterState, input: (i32, i32, i32)) -> (i32, i32, i32) {
    (
        spec_high_pass(s.alpha as int, s.prev_input.0 as int, s.prev_output.0 as int, input.0 as int) as i32,
        spec_high_pass(s.alpha as int, s.prev_input.1 as int, s.prev_output.1 as int, input.1 as int) as i32,
        spec_high_pass(s.alpha as int, s.prev_input.2 as int, s.prev_output.2 as int, input.2 as int) as i32,
    )
}

/// The state of a filter after it was given `input` in state `s`.
pub open spec fn spec_filter_step(s: FilterState, input: (i32, i32, i32)) -> FilterState {
    FilterState { alpha: s.alpha, prev_input: input, prev_output: spec_filter_output(s, input) }
}

/// The state of a filter that has seen no sample yet.
pub open spec fn spec_filter_fresh(alpha: u32) -> FilterState {
    FilterState { alpha, prev_input: (0i32, 0i32, 0i32), prev_output: (0i32, 0i32, 0i32) }
}

/// A one-pole high-pass filter over three axes, with one coefficient for all.
///
/// A larger coefficient keeps more of the fast changes; a smaller one smooths
/// more.
pub struct HighPassFilter3D {
    alpha: u32,
    prev_input: (i32, i32, i32),
    prev_output: (i32, i32, i32),
}

impl View for HighPassFilter3D {
    type V = FilterState;

    closed spec fn view(&self) -> FilterState {
        FilterState { alpha: self.alpha, prev_input: self.prev_input, prev_output: self.prev_output }
    }
}

/// One axis of the filter.
fn high_pass_axis(alpha: u32, prev_in: i32, prev_out: i32, input: i32) -> (out: i32)
    ensures
        out == spec_high_pass(alpha as int, prev_in as int, prev_out as int, input as int),
    no_unwind
{
    let inner: i64 = prev_out as i64 + input as i64 - prev_in as i64;
    let negative: bool = inner < 0;
    let size: u128 = if negative {
        (-inner) as u128
    } else {
        inner as u128
    };
    proof {
        assert(alpha * size <= 0x1_0000_0000 * 0x2_0000_0000) by (nonlinear_arith)
            requires
                0 <= alpha <= 0x1_0000_0000,
                0 <= size <= 0x2_0000_0000,
        ;
        assert(alpha * (-(inner as int)) == -(alpha * (inner as int))) by (nonlinear_arith);
        assert(negative ==> alpha * (inner as int) <= 0) by (nonlinear_arith)
            requires
                0 <= alpha,
                negative ==> inner < 0,
        ;
        assert(!negative ==> alpha * (inner as int) >= 0) by (nonlinear_arith)
            requires
                0 <= alpha,
                !negative ==> inner >= 0,
        ;
    }
    let scaled: u128 = (alpha as u128 * size) / (ONE as u128);
    if negative {
        if scaled >= 0x8000_0000 {
            i32::MIN
        } else {
            (-(scaled as i64)) as i32
        }
    } else {
        if scaled > 0x7FFF_FFFF {
            i32::MAX
        } else {
            scaled as i32
        }
    }
}

impl HighPassFilter3D {
    /// A filter with coefficient `alpha`, in millionths, that has seen no
    /// sample yet.
    pub fn new(alpha: u32) -> (filter: Self)
        ensures
            filter@ == spec_filter_fresh(alpha),
    {
        HighPassFilter3D { alpha, prev_input: (0, 0, 0), prev_output: (0, 0, 0) }
    }

    /// Filters one sample and remembers it.
    pub fn filter(&mut self, current_input: (i32, i32, i32)) -> (out: (i32, i32, i32))
        ensures
            out == spec_filter_output(old(self)@, current_input),
            final(self)@ == spec_filter_step(old(self)@, current_input),
        no_unwind
    {
        let (cx, cy, cz) = current_input;
        let (px, py, pz) = self.prev_input;
        let (ox, oy, oz) = self.prev_output;
        let out_x = high_pass_axis(self.alpha, px, ox, cx);
        let out_y = high_pass_axis(self.alpha, py, oy, cy);
        let out_z = high_pass_axis(self.alpha, pz, oz, cz);
        self.prev_input = current_input;
        self.prev_output = (out_x, out_y, out_z);
        (out_x, out_y, out_z)
    }
}

} // verus!
