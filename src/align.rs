use vstd::prelude::*;

verus! {

/// Alignment along one axis within a pair of bounds.
#[derive(Debug, Default, Clone, Copy, PartialEq, Eq, Structural, Hash)]
pub enum Align {
    /// At the minimum bound (left or top).
    #[default]
    Min,
    /// Halfway between the bounds.
    Center,
    /// At the maximum bound (right or bottom).
    Max,
}

/// The alignment that the sign of `n` selects.
pub open spec fn align_of_sign(n: int) -> Align {
    if n < 0 {
        Align::Min
    } else if n == 0 {
        Align::Center
    } else {
        Align::Max
    }
}

impl Align {
    pub const LEFT: Align = Align::Min;
    pub const RIGHT: Align = Align::Max;
    pub const TOP: Align = Align::Min;
    pub const BOTTOM: Align = Align::Max;

    /// Negative values select `Min`, zero `Center`, positive `Max`.
    pub fn from_i8(align: i8) -> (r: Align)
        ensures
            r == align_of_sign(align as int),
    {
        if align < 0 {
            Align::Min
        } else if align == 0 {
            Align::Center
        } else {
            Align::Max
        }
    }

    /// Negative values select `Min`, zero `Center`, positive `Max`.
    pub fn from_i16(align: i16) -> (r: Align)
        ensures
            r == align_of_sign(align as int),
    {
        if align < 0 {
            Align::Min
        } else if align == 0 {
            Align::Center
        } else {
            Align::Max
        }
    }

    /// Negative values select `Min`, zero `Center`, positive `Max`.
    pub fn from_i32(align: i32) -> (r: Align)
        ensures
            r == align_of_sign(align as int),
    {
        if align < 0 {
            Align::Min
        } else if align == 0 {
            Align::Center
        } else {
            Align::Max
        }
    }

    /// Negative values select `Min`, zero `Center`, positive `Max`.
    pub fn from_i64(align: i64) -> (r: Align)
        ensures
            r == align_of_sign(align as int),
    {
        if align < 0 {
            Align::Min
        } else if align == 0 {
            Align::Center
        } else {
            Align::Max
        }
    }

    /// Negative values select `Min`, zero `Center`, positive `Max`.
    pub fn from_i128(align: i128) -> (r: Align)
        ensures
            r == align_of_sign(align as int),
    {
        if align < 0 {
            Align::Min
        } else if align == 0 {
            Align::Center
        } else {
            Align::Max
        }
    }
}

impl Align {
    /// The alignment at the other end of the axis; `Center` stays.
    pub open spec fn flipped(self) -> Align {
        match self {
            Align::Min => Align::Max,
            Align::Center => Align::Center,
            Align::Max => Align::Min,
        }
    }

    /// The alignment at the other end of the axis; `Center` stays.
    pub fn flip(self) -> (r: Align)
        ensures
            r == self.flipped(),
    {
        match self {
            Align::Min => Align::Max,
            Align::Center => Align::Center,
            Align::Max => Align::Min,
        }
    }

    /// The outcome of [`Align::locate`].
    pub open spec fn locate_spec(ge_min: bool, lt_max: bool) -> Option<Align> {
        if ge_min && lt_max {
            Some(Align::Center)
        } else if ge_min {
            Some(Align::Max)
        } else if lt_max {
            Some(Align::Min)
        } else {
            None
        }
    }

    /// Classifies a coordinate against a half-open band `[min, max)` from
    /// the two comparisons `coord >= min` and `coord < max`: `Min` lies
    /// before the band, `Center` inside it, `Max` past it. Both failing
    /// can only happen when `min > max`, which yields `None`.
    pub fn locate(ge_min: bool, lt_max: bool) -> (r: Option<Align>)
        ensures
            r == Align::locate_spec(ge_min, lt_max),
    {
        if ge_min {
            if lt_max {
                Some(Align::Center)
            } else {
                Some(Align::Max)
            }
        } else if lt_max {
            Some(Align::Min)
        } else {
            None
        }
    }
}

/// Flipping an alignment twice gives it back.
pub proof fn lemma_flip_involution(a: Align)
    ensures
        a.flipped().flipped() == a,
{
}

} // verus!
