//! Float-free decision logic of a small planar-geometry library: the sign
//! reasoning behind the segment intersection test, the clamping of a
//! projection onto a segment, and the choice of method for the distance
//! between two segments.

pub mod distance;
pub mod intersection;
pub mod orientation;
