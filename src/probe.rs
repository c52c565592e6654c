//! The verdict of the vector-instruction probe.
//!
//! The probe splats 1 and 2 into two four-lane vectors of 32-bit integers,
//! adds them lane by lane and reads lane 0 back. The instructions run in the
//! WebAssembly host; the library judges the lane that came back.

use vstd::prelude::*;

verus! {

/// The value splatted into the first vector.
pub const PROBE_LEFT: i32 = 1;

/// The value splatted into the second vector.
pub const PROBE_RIGHT: i32 = 2;

/// Whether lane 0 of the sum holds what a lane-wise add must give.
pub fn probe_passed(lane0: i32) -> (r: bool)
    ensures
        r == (lane0 == PROBE_LEFT + PROBE_RIGHT),
{
    lane0 == PROBE_LEFT + PROBE_RIGHT
}

} // verus!
