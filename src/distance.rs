use vstd::prelude::*;

use crate::orientation::Sign;

verus! {

/// Where the projection of a point falls on the line of a segment.
#[derive(Clone, Copy, Debug, PartialEq, Eq, Structural)]
pub enum Projection {
    /// The segment's squared length is within tolerance of zero: it is a
    /// single point and no projection parameter exists.
    Degenerate,
    /// The projection parameter `t` (0 at the start, 1 at the end), given by
    /// the sign of `t` and the sign of `t - 1`.
    Along { from_start: Sign, from_end: Sign },
}

/// The point of a segment that is nearest to a given point.
#[derive(Clone, Copy, Debug, PartialEq, Eq, Structural)]
pub enum Nearest {
    /// The segment's start point.
    Start,
    /// The segment's end point.
    End,
    /// The foot of the perpendicular, strictly between the two endpoints.
    Interior,
}

/// The nearest point for a projection: a degenerate segment is its start
/// point; otherwise the parameter is clamped to `[0, 1]`, and a parameter
/// that reaches a bound, ties included, picks that endpoint.
pub open spec fn nearest_of(p: Projection) -> Nearest {
    match p {
        Projection::Degenerate => Nearest::Start,
        Projection::Along { from_start, from_end } => {
            if !(from_start is Positive) {
                Nearest::Start
            } else if !(from_end is Negative) {
                Nearest::End
            } else {
                Nearest::Interior
            }
        },
    }
}

/// Picks the point of a segment nearest to a point, from where the point's
/// projection falls.
pub fn nearest_point(p: Projection) -> (r: Nearest)
    ensures
        r == nearest_of(p),
        p is Degenerate ==> r is Start,
        r is Interior <==> (p matches Projection::Along { from_start, from_end } && from_start
            is Positive && from_end is Negative),
{
    match p {
        Projection::Degenerate => Nearest::Start,
        Projection::Along { from_start, from_end } => match from_start {
            Sign::Positive => match from_end {
                Sign::Negative => Nearest::Interior,
                _ => Nearest::End,
            },
            _ => Nearest::Start,
        },
    }
}

/// How the squared distance between two segments is obtained.
#[derive(Clone, Copy, Debug, PartialEq, Eq, Structural)]
pub enum SegmentsMethod {
    /// The first segment is degenerate: the distance from its start point
    /// to the second segment.
    FirstAsPoint,
    /// The second segment is degenerate: the distance from its start point
    /// to the first segment.
    SecondAsPoint,
    /// The segments are not parallel and meet: the distance is zero.
    Meeting,
    /// Otherwise the least of the four distances from an endpoint of one
    /// segment to the other segment.
    Endpoints,
}

/// The method for two segments, from whether each is degenerate, whether
/// their directions are parallel (within tolerance), and whether they meet.
pub open spec fn method_of(
    first_degenerate: bool,
    second_degenerate: bool,
    parallel: bool,
    meet: bool,
) -> SegmentsMethod {
    if first_degenerate {
        SegmentsMethod::FirstAsPoint
    } else if second_degenerate {
        SegmentsMethod::SecondAsPoint
    } else if !parallel && meet {
        SegmentsMethod::Meeting
    } else {
        SegmentsMethod::Endpoints
    }
}

/// Chooses how the squared distance between two segments is obtained.
pub fn segments_method(
    first_degenerate: bool,
    second_degenerate: bool,
    parallel: bool,
    meet: bool,
) -> (r: SegmentsMethod)
    ensures
        r == method_of(first_degenerate, second_degenerate, parallel, meet),
        r is Meeting ==> meet,
{
    if first_degenerate {
        SegmentsMethod::FirstAsPoint
    } else if second_degenerate {
        SegmentsMethod::SecondAsPoint
    } else if !parallel && meet {
        SegmentsMethod::Meeting
    } else {
        SegmentsMethod::Endpoints
    }
}

/// A degenerate segment is treated as the single point it is, in both
/// distance computations: its nearest point to any point is its start, and
/// a degenerate first segment is measured from its start point, whatever the
/// other tests say.
pub proof fn lemma_degenerate_is_point(second_degenerate: bool, parallel: bool, meet: bool)
    ensures
        nearest_of(Projection::Degenerate) == Nearest::Start,
        method_of(true, second_degenerate, parallel, meet) == SegmentsMethod::FirstAsPoint,
        method_of(false, true, parallel, meet) == SegmentsMethod::SecondAsPoint,
{
}

} // verus!
