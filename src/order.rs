use vstd::prelude::*;
use core::cmp::Ordering;

verus! {

/// The order of two points under the componentwise relations, given the
/// order of their x coordinates and of their y coordinates (`None` where
/// a coordinate is unordered, as NaN is).
pub open spec fn componentwise_spec(x: Option<Ordering>, y: Option<Ordering>) -> Option<Ordering> {
    if x == Some(Ordering::Equal) && y == Some(Ordering::Equal) {
        Some(Ordering::Equal)
    } else if x == Some(Ordering::Less) && y == Some(Ordering::Less) {
        Some(Ordering::Less)
    } else if x == Some(Ordering::Greater) && y == Some(Ordering::Greater) {
        Some(Ordering::Greater)
    } else {
        None
    }
}

/// The reverse of an optional ordering.
pub open spec fn reversed(o: Option<Ordering>) -> Option<Ordering> {
    match o {
        Some(Ordering::Less) => Some(Ordering::Greater),
        Some(Ordering::Greater) => Some(Ordering::Less),
        other => other,
    }
}

/// Combines per-axis orderings into the partial order of points: one
/// point is less than another only when it is less on both axes, greater
/// only when greater on both, equal only when equal on both; anything
/// else is unordered.
pub fn componentwise(x: Option<Ordering>, y: Option<Ordering>) -> (r: Option<Ordering>)
    ensures
        r == componentwise_spec(x, y),
{
    match (x, y) {
        (Some(Ordering::Equal), Some(Ordering::Equal)) => Some(Ordering::Equal),
        (Some(Ordering::Less), Some(Ordering::Less)) => Some(Ordering::Less),
        (Some(Ordering::Greater), Some(Ordering::Greater)) => Some(Ordering::Greater),
        _ => None,
    }
}

/// Comparing the other way round reverses the outcome, and two axes that
/// disagree leave the points unordered.
pub proof fn lemma_componentwise_antisymmetric(x: Option<Ordering>, y: Option<Ordering>)
    ensures
        componentwise_spec(reversed(x), reversed(y)) == reversed(componentwise_spec(x, y)),
        (x == Some(Ordering::Less) && y == Some(Ordering::Greater)) ==> componentwise_spec(x, y) is None,
{
}

} // verus!
