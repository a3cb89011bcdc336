use vstd::prelude::*;

verus! {

/// Four signed insets that grow a rectangle outward: each side's bound
/// moves away from the center by that side's value.
#[derive(Debug, Default, Clone, Copy, PartialEq, Eq, Structural, Hash)]
pub struct Margin {
    pub left: i8,
    pub top: i8,
    pub right: i8,
    pub bottom: i8,
}

impl Margin {
    pub fn new(left: i8, top: i8, right: i8, bottom: i8) -> (r: Margin)
        ensures
            r == (Margin { left, top, right, bottom }),
    {
        Margin { left, top, right, bottom }
    }

    /// The same inset on every side.
    pub fn same(all: i8) -> (r: Margin)
        ensures
            r == (Margin { left: all, top: all, right: all, bottom: all }),
    {
        Margin { left: all, top: all, right: all, bottom: all }
    }

    /// `x` on the left and right, `y` on the top and bottom.
    pub fn symmetric(x: i8, y: i8) -> (r: Margin)
        ensures
            r == (Margin { left: x, top: y, right: x, bottom: y }),
    {
        Margin { left: x, top: y, right: x, bottom: y }
    }

    /// The total horizontal inset, `left + right`.
    pub fn x(self) -> (r: i16)
        ensures
            r == self.left + self.right,
    {
        self.left as i16 + self.right as i16
    }

    /// The total vertical inset, `top + bottom`.
    pub fn y(self) -> (r: i16)
        ensures
            r == self.top + self.bottom,
    {
        self.top as i16 + self.bottom as i16
    }

    /// Whether every side of `self + rhs` fits in an `i8`.
    pub open spec fn sum_fits(self, rhs: Margin) -> bool {
        &&& i8::MIN <= self.left + rhs.left <= i8::MAX
        &&& i8::MIN <= self.top + rhs.top <= i8::MAX
        &&& i8::MIN <= self.right + rhs.right <= i8::MAX
        &&& i8::MIN <= self.bottom + rhs.bottom <= i8::MAX
    }

    /// Whether every side of `self - rhs` fits in an `i8`.
    pub open spec fn difference_fits(self, rhs: Margin) -> bool {
        &&& i8::MIN <= self.left - rhs.left <= i8::MAX
        &&& i8::MIN <= self.top - rhs.top <= i8::MAX
        &&& i8::MIN <= self.right - rhs.right <= i8::MAX
        &&& i8::MIN <= self.bottom - rhs.bottom <= i8::MAX
    }

    /// Side-by-side sum.
    pub fn add_margin(self, rhs: Margin) -> (r: Margin)
        requires
            self.sum_fits(rhs),
        ensures
            r.left == self.left + rhs.left,
            r.top == self.top + rhs.top,
            r.right == self.right + rhs.right,
            r.bottom == self.bottom + rhs.bottom,
    {
        Margin {
            left: self.left + rhs.left,
            top: self.top + rhs.top,
            right: self.right + rhs.right,
            bottom: self.bottom + rhs.bottom,
        }
    }

    /// Side-by-side difference.
    pub fn sub_margin(self, rhs: Margin) -> (r: Margin)
        requires
            self.difference_fits(rhs),
        ensures
            r.left == self.left - rhs.left,
            r.top == self.top - rhs.top,
            r.right == self.right - rhs.right,
            r.bottom == self.bottom - rhs.bottom,
    {
        Margin {
            left: self.left - rhs.left,
            top: self.top - rhs.top,
            right: self.right - rhs.right,
            bottom: self.bottom - rhs.bottom,
        }
    }

    /// The same four values, relabelled as a padding.
    pub open spec fn as_padding(self) -> Padding {
        Padding { left: self.left, top: self.top, right: self.right, bottom: self.bottom }
    }

    /// The same four values read as a [`Padding`], which shrinks where
    /// this grows.
    pub fn to_padding(self) -> (r: Padding)
        ensures
            r == self.as_padding(),
    {
        Padding { left: self.left, top: self.top, right: self.right, bottom: self.bottom }
    }

    /// The four values of `padding` read as a margin.
    pub fn from_padding(padding: Padding) -> (r: Margin)
        ensures
            r == padding.as_margin(),
    {
        Margin { left: padding.left, top: padding.top, right: padding.right, bottom: padding.bottom }
    }
}

/// Four signed insets that shrink a rectangle inward: each side's bound
/// moves toward the center by that side's value. It holds the same four
/// values as a [`Margin`]; only the direction of the effect differs.
#[derive(Debug, Default, Clone, Copy, PartialEq, Eq, Structural, Hash)]
pub struct Padding {
    pub left: i8,
    pub top: i8,
    pub right: i8,
    pub bottom: i8,
}

impl Padding {
    pub fn new(left: i8, top: i8, right: i8, bottom: i8) -> (r: Padding)
        ensures
            r == (Padding { left, top, right, bottom }),
    {
        Padding { left, top, right, bottom }
    }

    /// The same inset on every side.
    pub fn same(all: i8) -> (r: Padding)
        ensures
            r == (Padding { left: all, top: all, right: all, bottom: all }),
    {
        Padding { left: all, top: all, right: all, bottom: all }
    }

    /// `x` on the left and right, `y` on the top and bottom.
    pub fn symmetric(x: i8, y: i8) -> (r: Padding)
        ensures
            r == (Padding { left: x, top: y, right: x, bottom: y }),
    {
        Padding { left: x, top: y, right: x, bottom: y }
    }

    /// The total horizontal inset, `left + right`.
    pub fn x(self) -> (r: i16)
        ensures
            r == self.left + self.right,
    {
        self.left as i16 + self.right as i16
    }

    /// The total vertical inset, `top + bottom`.
    pub fn y(self) -> (r: i16)
        ensures
            r == self.top + self.bottom,
    {
        self.top as i16 + self.bottom as i16
    }

    /// Whether every side of `self + rhs` fits in an `i8`.
    pub open spec fn sum_fits(self, rhs: Padding) -> bool {
        &&& i8::MIN <= self.left + rhs.left <= i8::MAX
        &&& i8::MIN <= self.top + rhs.top <= i8::MAX
        &&& i8::MIN <= self.right + rhs.right <= i8::MAX
        &&& i8::MIN <= self.bottom + rhs.bottom <= i8::MAX
    }

    /// Whether every side of `self - rhs` fits in an `i8`.
    pub open spec fn difference_fits(self, rhs: Padding) -> bool {
        &&& i8::MIN <= self.left - rhs.left <= i8::MAX
        &&& i8::MIN <= self.top - rhs.top <= i8::MAX
        &&& i8::MIN <= self.right - rhs.right <= i8::MAX
        &&& i8::MIN <= self.bottom - rhs.bottom <= i8::MAX
    }

    /// Side-by-side sum.
    pub fn add_padding(self, rhs: Padding) -> (r: Padding)
        requires
            self.sum_fits(rhs),
        ensures
            r.left == self.left + rhs.left,
            r.top == self.top + rhs.top,
            r.right == self.right + rhs.right,
            r.bottom == self.bottom + rhs.bottom,
    {
        Padding {
            left: self.left + rhs.left,
            top: self.top + rhs.top,
            right: self.right + rhs.right,
            bottom: self.bottom + rhs.bottom,
        }
    }

    /// Side-by-side difference.
    pub fn sub_padding(self, rhs: Padding) -> (r: Padding)
        requires
            self.difference_fits(rhs),
        ensures
            r.left == self.left - rhs.left,
            r.top == self.top - rhs.top,
            r.right == self.right - rhs.right,
            r.bottom == self.bottom - rhs.bottom,
    {
        Padding {
            left: self.left - rhs.left,
            top: self.top - rhs.top,
            right: self.right - rhs.right,
            bottom: self.bottom - rhs.bottom,
        }
    }

    /// The same four values, relabelled as a margin.
    pub open spec fn as_margin(self) -> Margin {
        Margin { left: self.left, top: self.top, right: self.right, bottom: self.bottom }
    }

    /// The same four values read as a [`Margin`], which grows where
    /// this shrinks.
    pub fn to_margin(self) -> (r: Margin)
        ensures
            r == self.as_margin(),
    {
        Margin { left: self.left, top: self.top, right: self.right, bottom: self.bottom }
    }

    /// The four values of `margin` read as a padding.
    pub fn from_margin(margin: Margin) -> (r: Padding)
        ensures
            r == margin.as_padding(),
    {
        Padding { left: margin.left, top: margin.top, right: margin.right, bottom: margin.bottom }
    }
}

/// Relabelling a margin as a padding and back gives it unchanged, and so
/// does the other way round; a sum fits exactly when the relabelled sum fits.
pub proof fn lemma_relabel_round_trip(m: Margin, p: Padding, n: Margin)
    ensures
        m.as_padding().as_margin() == m,
        p.as_margin().as_padding() == p,
        m.sum_fits(n) == m.as_padding().sum_fits(n.as_padding()),
{
}

} // verus!
