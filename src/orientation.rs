use crate::mapper::SimPoint;
use vstd::prelude::*;

verus! {

/// A heading as a direction vector in simulation space. It is never the zero
/// vector, so the angle `atan2(y, x)` is always defined.
#[derive(Clone, Copy, Debug, PartialEq, Eq, Structural)]
pub struct Heading {
    pub x: i128,
    pub y: i128,
}

/// The direction from `from` towards `target`; the positive x axis (angle
/// zero) where the two points coincide.
pub open spec fn spec_heading_toward(from: SimPoint, target: SimPoint) -> Heading {
    if from == target {
        Heading { x: 1, y: 0 }
    } else {
        Heading { x: (target.x - from.x) as i128, y: (target.y - from.y) as i128 }
    }
}

/// The heading that turns an entity at `from` towards `target`.
pub fn heading_toward(from: SimPoint, target: SimPoint) -> (r: Heading)
    ensures
        r == spec_heading_toward(from, target),
        r.x != 0 || r.y != 0,
{
    if from.x == target.x && from.y == target.y {
        Heading { x: 1, y: 0 }
    } else {
        Heading { x: target.x as i128 - from.x as i128, y: target.y as i128 - from.y as i128 }
    }
}

/// An entity exactly at the cursor faces along the positive x axis.
pub proof fn lemma_coincident_heading_is_fixed(p: SimPoint)
    ensures
        spec_heading_toward(p, p) == (Heading { x: 1, y: 0 }),
{
}

} // verus!
