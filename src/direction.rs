use vstd::prelude::*;

verus! {

/// An axis-aligned direction, named by the edge of a rectangle it points at.
#[derive(Debug, Clone, Copy, PartialEq, Eq, Structural, PartialOrd, Ord, Hash)]
pub enum Axial {
    Right,
    Up,
    Left,
    Down,
}

impl Axial {
    /// The direction pointing the other way.
    pub open spec fn reversed(self) -> Axial {
        match self {
            Axial::Right => Axial::Left,
            Axial::Up => Axial::Down,
            Axial::Left => Axial::Right,
            Axial::Down => Axial::Up,
        }
    }

    /// The direction of the 90-degree quadrant `quadrant` (taken modulo
    /// 4), counted counter-clockwise from the right.
    pub fn from_quadrant(quadrant: u8) -> (r: Axial)
        ensures
            r == match quadrant % 4 {
                0 => Axial::Right,
                1 => Axial::Up,
                2 => Axial::Left,
                _ => Axial::Down,
            },
    {
        match quadrant % 4 {
            0 => Axial::Right,
            1 => Axial::Up,
            2 => Axial::Left,
            _ => Axial::Down,
        }
    }

    /// The direction pointing the other way.
    pub fn opposite(self) -> (r: Axial)
        ensures
            r == self.reversed(),
    {
        match self {
            Axial::Right => Axial::Left,
            Axial::Up => Axial::Down,
            Axial::Left => Axial::Right,
            Axial::Down => Axial::Up,
        }
    }

    /// Whether the edge this direction points at runs horizontally
    /// (the top or bottom edge).
    pub fn is_horizontal(self) -> (r: bool)
        ensures
            r == (self == Axial::Up || self == Axial::Down),
    {
        matches!(self, Axial::Up | Axial::Down)
    }

    /// Whether the edge this direction points at runs vertically
    /// (the left or right edge).
    pub fn is_vertical(self) -> (r: bool)
        ensures
            r == (self == Axial::Left || self == Axial::Right),
    {
        matches!(self, Axial::Left | Axial::Right)
    }
}

/// Reversing is an involution without fixed points that keeps the edge's
/// orientation.
pub proof fn lemma_opposite(a: Axial)
    ensures
        a.reversed().reversed() == a,
        a.reversed() != a,
        (a.reversed() == Axial::Up || a.reversed() == Axial::Down) == (a == Axial::Up || a == Axial::Down),
{
}

} // verus!
