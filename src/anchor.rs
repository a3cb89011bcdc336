use vstd::prelude::*;
use crate::align::Align;

verus! {

/// One of the nine reference positions of a rectangle: the four corners,
/// the four edge midpoints and the center.
///
/// The eight perimeter anchors are declared in counter-clockwise order
/// starting at the left-top corner (y grows downward).
#[derive(Debug, Clone, Copy, PartialEq, Eq, Structural, PartialOrd, Ord, Hash)]
pub enum Anchor {
    LeftTop,
    LeftCenter,
    LeftBottom,
    BottomCenter,
    RightBottom,
    RightCenter,
    RightTop,
    TopCenter,
    Center,
}

/// The perimeter anchor at position `i` (taken modulo 8) of the
/// counter-clockwise walk that starts at `LeftTop`.
pub open spec fn perimeter_at(i: int) -> Anchor {
    let k = i % 8;
    if k == 0 {
        Anchor::LeftTop
    } else if k == 1 {
        Anchor::LeftCenter
    } else if k == 2 {
        Anchor::LeftBottom
    } else if k == 3 {
        Anchor::BottomCenter
    } else if k == 4 {
        Anchor::RightBottom
    } else if k == 5 {
        Anchor::RightCenter
    } else if k == 6 {
        Anchor::RightTop
    } else {
        Anchor::TopCenter
    }
}

impl Anchor {
    /// Position on the counter-clockwise perimeter walk; `Center` has none.
    pub open spec fn perimeter_index(self) -> Option<int> {
        match self {
            Anchor::LeftTop => Some(0),
            Anchor::LeftCenter => Some(1),
            Anchor::LeftBottom => Some(2),
            Anchor::BottomCenter => Some(3),
            Anchor::RightBottom => Some(4),
            Anchor::RightCenter => Some(5),
            Anchor::RightTop => Some(6),
            Anchor::TopCenter => Some(7),
            Anchor::Center => None,
        }
    }

    /// Where the anchor lies along the x axis.
    pub open spec fn x_align(self) -> Align {
        match self {
            Anchor::LeftTop | Anchor::LeftCenter | Anchor::LeftBottom => Align::Min,
            Anchor::TopCenter | Anchor::Center | Anchor::BottomCenter => Align::Center,
            Anchor::RightTop | Anchor::RightCenter | Anchor::RightBottom => Align::Max,
        }
    }

    /// Where the anchor lies along the y axis.
    pub open spec fn y_align(self) -> Align {
        match self {
            Anchor::LeftTop | Anchor::TopCenter | Anchor::RightTop => Align::Min,
            Anchor::LeftCenter | Anchor::Center | Anchor::RightCenter => Align::Center,
            Anchor::LeftBottom | Anchor::BottomCenter | Anchor::RightBottom => Align::Max,
        }
    }

    /// The anchor that lies at `x` along the x axis and at `y` along the y axis.
    pub open spec fn of_aligns(x: Align, y: Align) -> Anchor {
        match (x, y) {
            (Align::Min, Align::Min) => Anchor::LeftTop,
            (Align::Min, Align::Center) => Anchor::LeftCenter,
            (Align::Min, Align::Max) => Anchor::LeftBottom,
            (Align::Center, Align::Min) => Anchor::TopCenter,
            (Align::Center, Align::Center) => Anchor::Center,
            (Align::Center, Align::Max) => Anchor::BottomCenter,
            (Align::Max, Align::Min) => Anchor::RightTop,
            (Align::Max, Align::Center) => Anchor::RightCenter,
            (Align::Max, Align::Max) => Anchor::RightBottom,
        }
    }

    /// The anchor at the point reflection through the center.
    pub open spec fn inverted(self) -> Anchor {
        Anchor::of_aligns(self.x_align().flipped(), self.y_align().flipped())
    }

    /// The anchor mirrored across the vertical center line.
    pub open spec fn inverted_horizontal(self) -> Anchor {
        Anchor::of_aligns(self.x_align().flipped(), self.y_align())
    }

    /// The anchor mirrored across the horizontal center line.
    pub open spec fn inverted_vertical(self) -> Anchor {
        Anchor::of_aligns(self.x_align(), self.y_align().flipped())
    }

    /// `self` moved `rotation` steps counter-clockwise along the perimeter;
    /// `Center` stays where it is.
    pub open spec fn rotated(self, rotation: int) -> Anchor {
        match self.perimeter_index() {
            Some(i) => perimeter_at(i + rotation),
            None => Anchor::Center,
        }
    }

    /// The perimeter anchor at position `index` of the counter-clockwise
    /// walk that starts at `LeftTop`.
    pub fn from_perimeter_index(index: usize) -> (r: Anchor)
        requires
            index < 8,
        ensures
            r == perimeter_at(index as int),
    {
        match index {
            0 => Anchor::LeftTop,
            1 => Anchor::LeftCenter,
            2 => Anchor::LeftBottom,
            3 => Anchor::BottomCenter,
            4 => Anchor::RightBottom,
            5 => Anchor::RightCenter,
            6 => Anchor::RightTop,
            _ => Anchor::TopCenter,
        }
    }

    /// Rotates a perimeter anchor counter-clockwise by `rotation` steps of
    /// 45 degrees (negative values turn clockwise). `Center` is returned
    /// unchanged.
    pub fn rotate(self, rotation: i32) -> (r: Anchor)
        ensures
            r == self.rotated(rotation as int),
    {
        let start: i64 = match self {
            Anchor::LeftTop => 0,
            Anchor::LeftCenter => 1,
            Anchor::LeftBottom => 2,
            Anchor::BottomCenter => 3,
            Anchor::RightBottom => 4,
            Anchor::RightCenter => 5,
            Anchor::RightTop => 6,
            Anchor::TopCenter => 7,
            Anchor::Center => {
                return self;
            },
        };
        let rot: i64 = start + rotation as i64;
        let m: i64 = rot % 8;
        let selection: i64 = if m < 0 { m + 8 } else { m };
        assert(selection == rot as int % 8) by {
            assert(rot as int == (rot as int / 8) * 8 + rot as int % 8);
        }
        Anchor::from_perimeter_index(selection as usize)
    }

    /// The anchor on the opposite side of the center.
    pub fn invert(self) -> (r: Anchor)
        ensures
            r == self.inverted(),
    {
        match self {
            Anchor::LeftTop => Anchor::RightBottom,
            Anchor::LeftCenter => Anchor::RightCenter,
            Anchor::LeftBottom => Anchor::RightTop,
            Anchor::BottomCenter => Anchor::TopCenter,
            Anchor::RightBottom => Anchor::LeftTop,
            Anchor::RightCenter => Anchor::LeftCenter,
            Anchor::RightTop => Anchor::LeftBottom,
            Anchor::TopCenter => Anchor::BottomCenter,
            Anchor::Center => Anchor::Center,
        }
    }

    /// The anchor mirrored left-to-right.
    pub fn invert_horizontal(self) -> (r: Anchor)
        ensures
            r == self.inverted_horizontal(),
    {
        match self {
            Anchor::LeftTop => Anchor::RightTop,
            Anchor::LeftCenter => Anchor::RightCenter,
            Anchor::LeftBottom => Anchor::RightBottom,
            Anchor::BottomCenter => Anchor::BottomCenter,
            Anchor::RightBottom => Anchor::LeftBottom,
            Anchor::RightCenter => Anchor::LeftCenter,
            Anchor::RightTop => Anchor::LeftTop,
            Anchor::TopCenter => Anchor::TopCenter,
            Anchor::Center => Anchor::Center,
        }
    }

    /// The anchor mirrored top-to-bottom.
    pub fn invert_vertical(self) -> (r: Anchor)
        ensures
            r == self.inverted_vertical(),
    {
        match self {
            Anchor::LeftTop => Anchor::LeftBottom,
            Anchor::LeftCenter => Anchor::LeftCenter,
            Anchor::LeftBottom => Anchor::LeftTop,
            Anchor::BottomCenter => Anchor::TopCenter,
            Anchor::RightBottom => Anchor::RightTop,
            Anchor::RightCenter => Anchor::RightCenter,
            Anchor::RightTop => Anchor::RightBottom,
            Anchor::TopCenter => Anchor::BottomCenter,
            Anchor::Center => Anchor::Center,
        }
    }

    /// Where the anchor lies along the x axis.
    pub fn horizontal(self) -> (r: Align)
        ensures
            r == self.x_align(),
    {
        match self {
            Anchor::LeftTop | Anchor::LeftCenter | Anchor::LeftBottom => Align::Min,
            Anchor::TopCenter | Anchor::Center | Anchor::BottomCenter => Align::Center,
            Anchor::RightTop | Anchor::RightCenter | Anchor::RightBottom => Align::Max,
        }
    }

    /// Where the anchor lies along the y axis.
    pub fn vertical(self) -> (r: Align)
        ensures
            r == self.y_align(),
    {
        match self {
            Anchor::LeftTop | Anchor::TopCenter | Anchor::RightTop => Align::Min,
            Anchor::LeftCenter | Anchor::Center | Anchor::RightCenter => Align::Center,
            Anchor::LeftBottom | Anchor::BottomCenter | Anchor::RightBottom => Align::Max,
        }
    }

    /// The anchor that lies at `x` along the x axis and at `y` along the y axis.
    pub fn from_aligns(x: Align, y: Align) -> (r: Anchor)
        ensures
            r == Anchor::of_aligns(x, y),
            r.x_align() == x,
            r.y_align() == y,
    {
        match (x, y) {
            (Align::Min, Align::Min) => Anchor::LeftTop,
            (Align::Min, Align::Center) => Anchor::LeftCenter,
            (Align::Min, Align::Max) => Anchor::LeftBottom,
            (Align::Center, Align::Min) => Anchor::TopCenter,
            (Align::Center, Align::Center) => Anchor::Center,
            (Align::Center, Align::Max) => Anchor::BottomCenter,
            (Align::Max, Align::Min) => Anchor::RightTop,
            (Align::Max, Align::Center) => Anchor::RightCenter,
            (Align::Max, Align::Max) => Anchor::RightBottom,
        }
    }

    /// Which of the nine regions around a rectangle holds a point, given
    /// the four comparisons `x >= min.x`, `x < max.x`, `y >= min.y` and
    /// `y < max.y`. `Center` is the half-open interior; an edge midpoint
    /// is the band beyond that edge; a corner is the quadrant beyond that
    /// corner. Comparisons that only an inverted rectangle (`min > max` on
    /// some axis) can produce yield `None`.
    pub fn locate(ge_min_x: bool, lt_max_x: bool, ge_min_y: bool, lt_max_y: bool) -> (r: Option<Anchor>)
        ensures
            r is None <==> (!ge_min_x && !lt_max_x) || (!ge_min_y && !lt_max_y),
            r is Some ==> Some(r->0.x_align()) == Align::locate_spec(ge_min_x, lt_max_x),
            r is Some ==> Some(r->0.y_align()) == Align::locate_spec(ge_min_y, lt_max_y),
            r == Some(Anchor::Center) <==> ge_min_x && lt_max_x && ge_min_y && lt_max_y,
    {
        match (Align::locate(ge_min_x, lt_max_x), Align::locate(ge_min_y, lt_max_y)) {
            (Some(x), Some(y)) => Some(Anchor::from_aligns(x, y)),
            _ => None,
        }
    }
}

/// Every anchor is determined by its two axis alignments.
pub proof fn lemma_aligns_determine_anchor(a: Anchor)
    ensures
        Anchor::of_aligns(a.x_align(), a.y_align()) == a,
{
}

/// Inverting an anchor twice gives it back.
pub proof fn lemma_invert_involution(a: Anchor)
    ensures
        a.inverted().inverted() == a,
{
}

/// Inverting through the center is mirroring both ways, in either order.
pub proof fn lemma_invert_is_both_mirrors(a: Anchor)
    ensures
        a.inverted() == a.inverted_horizontal().inverted_vertical(),
        a.inverted() == a.inverted_vertical().inverted_horizontal(),
        a.inverted_horizontal().inverted_horizontal() == a,
        a.inverted_vertical().inverted_vertical() == a,
{
}

/// Only the center is its own inverse.
pub proof fn lemma_invert_fixes_only_center(a: Anchor)
    ensures
        (a.inverted() == a) <==> (a == Anchor::Center),
{
}

/// For a perimeter anchor, inverting is a half turn.
pub proof fn lemma_invert_is_half_turn(a: Anchor)
    ensures
        a.inverted() == a.rotated(4),
{
}

/// Rotations compose by adding their step counts, and a full turn of
/// eight steps changes nothing.
pub proof fn lemma_rotate_compose(a: Anchor, m: int, n: int)
    ensures
        a.rotated(m).rotated(n) == a.rotated(m + n),
        a.rotated(8) == a,
{
    match a.perimeter_index() {
        Some(i) => {
            let k = (i + m) % 8;
            assert(perimeter_at(i + m).perimeter_index() == Some(k));
            assert((k + n) % 8 == (i + m + n) % 8) by {
                assert(i + m == ((i + m) / 8) * 8 + k);
                lemma_mod_shift(k + n, (i + m) / 8);
            }
        },
        None => {},
    }
}

proof fn lemma_mod_shift(x: int, q: int)
    ensures
        (x + q * 8) % 8 == x % 8,
{
    vstd::arithmetic::div_mod::lemma_mod_multiples_vanish(q, x, 8);
}

} // verus!
