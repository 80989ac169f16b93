//! Mapping from hour marks to angles around the clock face.
//!
//! The face is divided into 24 equal slots, so one hour spans `pi/12`
//! radians, and hour 6 is anchored at angle 0.  All angles in this crate
//! are therefore kept as exact integer multiples of `pi/12`; a caller that
//! needs radians multiplies by `pi/12` at the drawing edge.

use vstd::prelude::*;

verus! {

/// Angle of an hour mark, in twelfths of pi: hour 6 sits at 0, and every
/// unit of hour offset from 6 contributes one `pi/12` step.  Hours at or
/// above 24 are deliberately not reduced: a span that wraps past midnight
/// is expressed with an end hour beyond 24 and must land proportionally
/// further around the circle.
pub open spec fn angle_twelfths(hour: int) -> int {
    hour - 6
}

/// Angle of the hour mark `hour`, in twelfths of pi.
///
/// The angle in radians is `a * pi/12`.  Any hour the chart can produce is
/// accepted, including end hours beyond 24 for wraparound segments; the
/// bound only keeps the value representable in the result type.
pub fn angle_of(hour: usize) -> (a: i64)
    requires
        hour <= 0x7fff_ffff_ffff_ffff,
    ensures
        a == angle_twelfths(hour as int),
{
    (hour as i64) - 6
}

/// Wraparound linearity of the hour-to-angle mapping: hour 6 sits at angle
/// zero, and moving one full day ahead adds exactly one full turn (24
/// twelfths of pi, i.e. 2 pi radians) to the angle.
pub proof fn lemma_angle_wraparound(h: int)
    ensures
        angle_twelfths(6) == 0,
        angle_twelfths(h + 24) == angle_twelfths(h) + 24,
{
}

} // verus!
