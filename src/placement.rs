use vstd::prelude::*;
use crate::align::Align;

verus! {

/// How a derived shape relates to a boundary: drawn within it, centered
/// on it, or drawn beyond it.
#[derive(Debug, Clone, Copy, PartialEq, Eq, Structural, PartialOrd, Ord, Hash)]
pub enum Placement {
    /// Inside the bounds.
    Inside,
    /// Centered on the bounds.
    Middle,
    /// Outside the bounds.
    Outside,
}

/// One end of a handle's extent along an axis: the base bound it is
/// measured from (`from_max` picks the maximum bound, else the minimum),
/// moved by a signed number of half handle sizes.
#[derive(Debug, Clone, Copy, PartialEq, Eq, Structural)]
pub struct HandleEdge {
    pub from_max: bool,
    pub halves: i8,
}

impl HandleEdge {
    /// The coordinate of this end for base bounds `lo..hi` and a handle
    /// whose half size is `h`.
    pub open spec fn at(self, lo: int, hi: int, h: int) -> int {
        (if self.from_max { hi } else { lo }) + self.halves * h
    }
}

/// The extent of a handle along one axis, from `start` to `end`.
#[derive(Debug, Clone, Copy, PartialEq, Eq, Structural)]
pub struct HandleSpan {
    pub start: HandleEdge,
    pub end: HandleEdge,
}

/// The extent `(start, end)` that a handle of size `2 * h` takes along an
/// axis with base bounds `lo..hi`, when its anchor lies at `align` on that
/// axis. At an end of the axis the handle is flush inside the bound,
/// straddles it, or sits beyond it; at the center it spans the base inset
/// by a whole handle, by half a handle, or not at all.
pub open spec fn handle_bounds(align: Align, placement: Placement, lo: int, hi: int, h: int) -> (int, int) {
    match (align, placement) {
        (Align::Min, Placement::Inside) => (lo, lo + 2 * h),
        (Align::Min, Placement::Middle) => (lo - h, lo + h),
        (Align::Min, Placement::Outside) => (lo - 2 * h, lo),
        (Align::Center, Placement::Inside) => (lo + 2 * h, hi - 2 * h),
        (Align::Center, Placement::Middle) => (lo + h, hi - h),
        (Align::Center, Placement::Outside) => (lo, hi),
        (Align::Max, Placement::Inside) => (hi - 2 * h, hi),
        (Align::Max, Placement::Middle) => (hi - h, hi + h),
        (Align::Max, Placement::Outside) => (hi, hi + 2 * h),
    }
}

impl HandleSpan {
    /// This span evaluated for base bounds `lo..hi` and half size `h`.
    pub open spec fn at(self, lo: int, hi: int, h: int) -> (int, int) {
        (self.start.at(lo, hi, h), self.end.at(lo, hi, h))
    }
}

/// The span from `start_halves` half sizes past one bound to
/// `end_halves` half sizes past another.
fn span(start_from_max: bool, start_halves: i8, end_from_max: bool, end_halves: i8) -> (r: HandleSpan)
    ensures
        r.start == (HandleEdge { from_max: start_from_max, halves: start_halves }),
        r.end == (HandleEdge { from_max: end_from_max, halves: end_halves }),
{
    HandleSpan {
        start: HandleEdge { from_max: start_from_max, halves: start_halves },
        end: HandleEdge { from_max: end_from_max, halves: end_halves },
    }
}

impl Placement {
    /// Swaps inside and outside; `Middle` stays.
    pub fn invert(self) -> (r: Placement)
        ensures
            r == match self {
                Placement::Inside => Placement::Outside,
                Placement::Middle => Placement::Middle,
                Placement::Outside => Placement::Inside,
            },
    {
        match self {
            Placement::Inside => Placement::Outside,
            Placement::Middle => Placement::Middle,
            Placement::Outside => Placement::Inside,
        }
    }

    pub fn is_inside(self) -> (r: bool)
        ensures
            r == (self == Placement::Inside),
    {
        matches!(self, Placement::Inside)
    }

    pub fn is_middle(self) -> (r: bool)
        ensures
            r == (self == Placement::Middle),
    {
        matches!(self, Placement::Middle)
    }

    pub fn is_outside(self) -> (r: bool)
        ensures
            r == (self == Placement::Outside),
    {
        matches!(self, Placement::Outside)
    }

    /// The extent along one axis of a handle placed this way at an anchor
    /// that lies at `align` on that axis. Evaluated for any base bounds and
    /// half size, it gives exactly [`handle_bounds`].
    pub fn handle_span(self, align: Align) -> (r: HandleSpan)
        ensures
            forall|lo: int, hi: int, h: int| #[trigger] r.at(lo, hi, h) == handle_bounds(align, self, lo, hi, h),
    {
        match (align, self) {
            (Align::Min, Placement::Inside) => span(false, 0, false, 2),
            (Align::Min, Placement::Middle) => span(false, -1, false, 1),
            (Align::Min, Placement::Outside) => span(false, -2, false, 0),
            (Align::Center, Placement::Inside) => span(false, 2, true, -2),
            (Align::Center, Placement::Middle) => span(false, 1, true, -1),
            (Align::Center, Placement::Outside) => span(false, 0, true, 0),
            (Align::Max, Placement::Inside) => span(true, -2, true, 0),
            (Align::Max, Placement::Middle) => span(true, -1, true, 1),
            (Align::Max, Placement::Outside) => span(true, 0, true, 2),
        }
    }
}

/// At an end of the axis a handle is exactly one handle long; placed in
/// the middle it is centered on that end, inside it starts or stops at
/// that end within the base, outside it starts or stops there beyond it.
pub proof fn lemma_handle_at_end(align: Align, placement: Placement, lo: int, hi: int, h: int)
    requires
        align != Align::Center,
    ensures
        ({
            let (s, e) = handle_bounds(align, placement, lo, hi, h);
            let end = if align == Align::Min { lo } else { hi };
            &&& e - s == 2 * h
            &&& placement == Placement::Middle ==> s + e == 2 * end
            &&& (placement == Placement::Inside && align == Align::Min) ==> s == end
            &&& (placement == Placement::Inside && align == Align::Max) ==> e == end
            &&& (placement == Placement::Outside && align == Align::Min) ==> e == end
            &&& (placement == Placement::Outside && align == Align::Max) ==> s == end
        }),
{
}

/// A handle at the center of an axis is centered on the base and, for a
/// non-negative size, stays within the base bounds.
pub proof fn lemma_handle_at_center(placement: Placement, lo: int, hi: int, h: int)
    requires
        h >= 0,
    ensures
        ({
            let (s, e) = handle_bounds(Align::Center, placement, lo, hi, h);
            &&& s + e == lo + hi
            &&& lo <= s
            &&& e <= hi
        }),
{
}

/// An inside handle at an end of the axis stays within the base when the
/// base is at least one handle long, and an outside one never overlaps
/// the base's interior.
pub proof fn lemma_handle_inside_outside(align: Align, lo: int, hi: int, h: int)
    requires
        align != Align::Center,
        h >= 0,
        lo <= hi,
    ensures
        ({
            let (s, e) = handle_bounds(align, Placement::Inside, lo, hi, h);
            2 * h <= hi - lo ==> lo <= s && e <= hi
        }),
        ({
            let (s, e) = handle_bounds(align, Placement::Outside, lo, hi, h);
            e <= lo || hi <= s
        }),
{
}

} // verus!
