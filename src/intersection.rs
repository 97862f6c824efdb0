use vstd::prelude::*;

use crate::orientation::{opposite, straddles, Turn};

verus! {

/// What is known of one endpoint of a segment relative to the other segment:
/// how it turns relative to that segment's direction, and whether it lies in
/// that segment's axis-aligned bounding box.
#[derive(Clone, Copy, Debug, PartialEq, Eq, Structural)]
pub struct EndpointTest {
    pub turn: Turn,
    pub within_bounds: bool,
}

/// The four endpoint tests of a pair of segments `first` and `second`.
/// `first_start` and `first_end` place the endpoints of `first` relative to
/// `second`; `second_start` and `second_end` place those of `second` relative
/// to `first`.
#[derive(Clone, Copy, Debug, PartialEq, Eq, Structural)]
pub struct IntersectionProbe {
    pub first_start: EndpointTest,
    pub first_end: EndpointTest,
    pub second_start: EndpointTest,
    pub second_end: EndpointTest,
}

/// An endpoint lies on the other segment: collinear with it (within
/// tolerance) and inside its bounding box.
pub open spec fn touches(e: EndpointTest) -> bool {
    e.turn.near_zero && e.within_bounds
}

/// The segments cross properly: the endpoints of each lie strictly on
/// opposite sides of the other.
pub open spec fn crosses(p: IntersectionProbe) -> bool {
    &&& opposite(p.first_start.turn.sign, p.first_end.turn.sign)
    &&& opposite(p.second_start.turn.sign, p.second_end.turn.sign)
}

/// The segments share a point: they cross, or an endpoint of one lies on the
/// other.
pub open spec fn meets(p: IntersectionProbe) -> bool {
    ||| crosses(p)
    ||| touches(p.first_start)
    ||| touches(p.first_end)
    ||| touches(p.second_start)
    ||| touches(p.second_end)
}

/// The probe of the same two segments taken in the other order.
pub open spec fn swapped(p: IntersectionProbe) -> IntersectionProbe {
    IntersectionProbe {
        first_start: p.second_start,
        first_end: p.second_end,
        second_start: p.first_start,
        second_end: p.first_end,
    }
}

/// Decides whether two segments share a point, from the four endpoint tests:
/// a proper crossing is tried first, then each endpoint in turn.
pub fn segments_meet(p: &IntersectionProbe) -> (r: bool)
    ensures
        r == meets(*p),
{
    if straddles(p.first_start.turn.sign, p.first_end.turn.sign) && straddles(
        p.second_start.turn.sign,
        p.second_end.turn.sign,
    ) {
        true
    } else if p.first_start.turn.near_zero && p.first_start.within_bounds {
        true
    } else if p.first_end.turn.near_zero && p.first_end.within_bounds {
        true
    } else if p.second_start.turn.near_zero && p.second_start.within_bounds {
        true
    } else {
        p.second_end.turn.near_zero && p.second_end.within_bounds
    }
}

/// Whether two segments share a point does not depend on the order in which
/// they are given: swapping them swaps the two halves of the probe, and the
/// verdict stays the same.
pub proof fn lemma_meets_symmetric(p: IntersectionProbe)
    ensures
        meets(p) == meets(swapped(p)),
        swapped(swapped(p)) == p,
{
    crate::orientation::lemma_opposite_symmetric(p.first_start.turn.sign, p.first_end.turn.sign);
}

} // verus!
