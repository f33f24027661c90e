//! The change of the acceleration from one simulation frame to the next,
//! which is what the engine is fed.

use vstd::prelude::*;
use crate::filter::spec_clamp_i32;

verus! {

/// The change between two readings of an axis, held to the range of an `i32`.
pub open spec fn spec_axis_delta(current: i32, last: i32) -> i32 {
    spec_clamp_i32(current - last) as i32
}

/// The change between two readings of the three axes.
pub open spec fn spec_frame_delta(current: (i32, i32, i32), last: (i32, i32, i32)) -> (i32, i32, i32) {
    (
        spec_axis_delta(current.0, last.0),
        spec_axis_delta(current.1, last.1),
        spec_axis_delta(current.2, last.2),
    )
}

/// The change between two readings of an axis.
fn axis_delta(current: i32, last: i32) -> (delta: i32)
    ensures
        delta == spec_axis_delta(current, last),
{
    let diff: i64 = current as i64 - last as i64;
    if diff < -0x8000_0000 {
        i32::MIN
    } else if diff > 0x7FFF_FFFF {
        i32::MAX
    } else {
        diff as i32
    }
}

/// Remembers the last reading of the acceleration and turns each new one
/// into its change since then.
pub struct FrameDelta {
    last: (i32, i32, i32),
}

impl View for FrameDelta {
    type V = (i32, i32, i32);

    /// The last reading.
    closed spec fn view(&self) -> (i32, i32, i32) {
        self.last
    }
}

impl FrameDelta {
    /// A tracker whose last reading is zero on every axis.
    pub fn new() -> (tracker: Self)
        ensures
            tracker@ == (0i32, 0i32, 0i32),
    {
        FrameDelta { last: (0, 0, 0) }
    }

    /// Takes the reading of this frame and gives its change since the last
    /// one, axis by axis.
    pub fn advance(&mut self, current: (i32, i32, i32)) -> (delta: (i32, i32, i32))
        ensures
            delta == spec_frame_delta(current, old(self)@),
            final(self)@ == current,
    {
        let delta = (
            axis_delta(current.0, self.last.0),
            axis_delta(current.1, self.last.1),
            axis_delta(current.2, self.last.2),
        );
        self.last = current;
        delta
    }
}

} // verus!
