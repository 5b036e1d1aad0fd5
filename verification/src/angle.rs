//! Angles in radians, as fixed-point numbers.

use vstd::prelude::*;
use crate::fixed::Fixed;

verus! {

/// Half a turn in radians, to the nearest millionth.
pub const PI: i64 = 3_141_593;

/// A quarter turn in radians, to the nearest millionth.
pub const HALF_PI: i64 = 1_570_796;

/// A full turn in radians, to the nearest millionth.
pub const TWO_PI: i64 = 6_283_185;

/// The angle that differs from `angle` by whole turns and lies in the turn
/// that starts at `-PI`.
pub open spec fn spec_wrapped(angle: Fixed) -> Fixed {
    Fixed { micros: ((angle.micros + PI) % (TWO_PI as int) - PI) as i64 }
}

/// Brings an angle into the turn that starts at `-PI`.
#[verifier::when_used_as_spec(spec_wrapped)]
pub fn wrapped(angle: Fixed) -> (r: Fixed)
    ensures
        r == spec_wrapped(angle),
        -PI <= r.micros < TWO_PI - PI,
        (r.micros - angle.micros) % (TWO_PI as int) == 0,
        -PI <= angle.micros < TWO_PI - PI ==> r == angle,
{
    let shifted: i128 = (angle.micros as i128) + (PI as i128);
    let turn: i128 = TWO_PI as i128;
    let within: i128 = if shifted >= 0 {
        shifted % turn
    } else {
        let over: i128 = (-shifted) % turn;
        if over == 0 {
            0
        } else {
            turn - over
        }
    };
    Fixed { micros: (within - (PI as i128)) as i64 }
}

} // verus!
