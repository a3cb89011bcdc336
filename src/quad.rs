use vstd::prelude::*;

verus! {

/// Four values, one for each quadrant of a subdivided region, stored in
/// the order left-top, right-top, left-bottom, right-bottom: the quadrant
/// in column `c` and row `r` (each 0 or 1) sits at position `c + 2 * r`.
pub struct QuadSubdivide<T> {
    quadrants: [T; 4],
}

impl<T> View for QuadSubdivide<T> {
    type V = Seq<T>;

    closed spec fn view(&self) -> Seq<T> {
        self.quadrants@
    }
}

impl<T> QuadSubdivide<T> {
    /// There are always exactly four quadrants.
    pub proof fn lemma_four(&self)
        ensures
            self@.len() == 4,
    {
    }

    /// Gathers the four quadrants.
    pub fn new(left_top: T, right_top: T, left_bottom: T, right_bottom: T) -> (r: Self)
        ensures
            r@ == seq![left_top, right_top, left_bottom, right_bottom],
    {
        let r = QuadSubdivide { quadrants: [left_top, right_top, left_bottom, right_bottom] };
        assert(r@ =~= seq![left_top, right_top, left_bottom, right_bottom]);
        r
    }

    pub fn left_top(&self) -> (r: &T)
        ensures
            *r == self@[0],
    {
        &self.quadrants[0]
    }

    pub fn left_top_mut(&mut self) -> (r: &mut T)
        ensures
            *r == old(self)@[0],
            final(self)@ == old(self)@.update(0, *final(r)),
    {
        &mut self.quadrants[0]
    }

    pub fn right_top(&self) -> (r: &T)
        ensures
            *r == self@[1],
    {
        &self.quadrants[1]
    }

    pub fn right_top_mut(&mut self) -> (r: &mut T)
        ensures
            *r == old(self)@[1],
            final(self)@ == old(self)@.update(1, *final(r)),
    {
        &mut self.quadrants[1]
    }

    pub fn left_bottom(&self) -> (r: &T)
        ensures
            *r == self@[2],
    {
        &self.quadrants[2]
    }

    pub fn left_bottom_mut(&mut self) -> (r: &mut T)
        ensures
            *r == old(self)@[2],
            final(self)@ == old(self)@.update(2, *final(r)),
    {
        &mut self.quadrants[2]
    }

    pub fn right_bottom(&self) -> (r: &T)
        ensures
            *r == self@[3],
    {
        &self.quadrants[3]
    }

    pub fn right_bottom_mut(&mut self) -> (r: &mut T)
        ensures
            *r == old(self)@[3],
            final(self)@ == old(self)@.update(3, *final(r)),
    {
        &mut self.quadrants[3]
    }

    /// The quadrant in column `col` and row `row`.
    pub fn quadrant(&self, col: u32, row: u32) -> (r: &T)
        requires
            col <= 1,
            row <= 1,
        ensures
            *r == self@[col + 2 * row],
    {
        let index: usize = (col + 2 * row) as usize;
        &self.quadrants[index]
    }

    /// The quadrant in column `col` and row `row`, for mutation.
    pub fn quadrant_mut(&mut self, col: u32, row: u32) -> (r: &mut T)
        requires
            col <= 1,
            row <= 1,
        ensures
            *r == old(self)@[col + 2 * row],
            final(self)@ == old(self)@.update(col + 2 * row, *final(r)),
    {
        let index: usize = (col + 2 * row) as usize;
        &mut self.quadrants[index]
    }

    /// All four quadrants in storage order.
    pub fn as_slice(&self) -> (r: &[T])
        ensures
            r@ == self@,
            r@.len() == 4,
    {
        &self.quadrants
    }

    /// All four quadrants in storage order, for mutation.
    pub fn as_mut_slice(&mut self) -> (r: &mut [T])
        ensures
            r@ == old(self)@,
            final(r)@ == final(self)@,
    {
        &mut self.quadrants
    }
}

} // verus!
