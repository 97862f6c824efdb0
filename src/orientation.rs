use vstd::prelude::*;

verus! {

/// The strict sign of a computed quantity (a cross product, a projection
/// parameter measured from a bound).
#[derive(Clone, Copy, Debug, PartialEq, Eq, Structural)]
pub enum Sign {
    Negative,
    Zero,
    Positive,
}

/// How a point turns relative to a directed segment: the strict sign of the
/// cross product, and whether that product is within tolerance of zero.
#[derive(Clone, Copy, Debug, PartialEq, Eq, Structural)]
pub struct Turn {
    pub sign: Sign,
    pub near_zero: bool,
}

/// Two signs that are strictly opposite: one negative, the other positive.
pub open spec fn opposite(a: Sign, b: Sign) -> bool {
    ||| (a is Negative && b is Positive)
    ||| (a is Positive && b is Negative)
}

/// Whether two signs are strictly opposite, that is whether the two points
/// they belong to lie strictly on opposite sides of a line.
pub fn straddles(a: Sign, b: Sign) -> (r: bool)
    ensures
        r == opposite(a, b),
{
    match (a, b) {
        (Sign::Negative, Sign::Positive) => true,
        (Sign::Positive, Sign::Negative) => true,
        _ => false,
    }
}

/// Being on opposite sides does not depend on which side is named first.
pub proof fn lemma_opposite_symmetric(a: Sign, b: Sign)
    ensures
        opposite(a, b) == opposite(b, a),
{
}

} // verus!
