//! The piecewise mass-luminosity relation: which segment a mass falls in.
use vstd::prelude::*;

verus! {

/// Upper mass bound of the first segment, in thousandths of a solar mass.
pub const FIRST_BOUND_MILLI: u64 = 1050;

/// Upper mass bound of the second segment, in thousandths of a solar mass.
pub const SECOND_BOUND_MILLI: u64 = 2400;

/// Upper mass bound of the third segment, in thousandths of a solar mass;
/// the fourth segment is open above it.
pub const THIRD_BOUND_MILLI: u64 = 7000;

/// The segment of a mass: the first whose upper bound the mass does not exceed.
pub open spec fn segment_spec(mass_milli: u64) -> nat {
    if mass_milli <= FIRST_BOUND_MILLI {
        0
    } else if mass_milli <= SECOND_BOUND_MILLI {
        1
    } else if mass_milli <= THIRD_BOUND_MILLI {
        2
    } else {
        3
    }
}

/// The segment of the mass-luminosity relation that a mass selects, from its
/// mass in thousandths of a solar mass, rounded up.  The bounds are
/// multiples of a thousandth, so rounding up keeps every comparison exact.
pub fn luminosity_segment(mass_milli: u64) -> (r: usize)
    ensures
        r == segment_spec(mass_milli),
        r < 4,
{
    if mass_milli <= FIRST_BOUND_MILLI {
        0
    } else if mass_milli <= SECOND_BOUND_MILLI {
        1
    } else if mass_milli <= THIRD_BOUND_MILLI {
        2
    } else {
        3
    }
}

} // verus!
