//! Two-field containers that are generic over what they hold.

use vstd::prelude::*;

verus! {

/// A pair of coordinates that share one type.
pub struct Point<T> {
    pub x: T,
    pub y: T,
}

impl<T> Point<T> {
    /// Borrows the first coordinate. Available for every `T`.
    ///
    /// The point is not changed, and every call returns the same coordinate.
    #[verifier::allow_in_spec]
    pub fn x(&self) -> (first: &T)
        ensures
            *first == self.x,
        returns
            &self.x,
    {
        &self.x
    }
}

/// A pair whose two fields are typed independently.
pub struct PointWithTwoGenerics<T, U> {
    pub x: T,
    pub y: U,
}

impl<T, U> PointWithTwoGenerics<T, U> {
    /// Consumes both pairs and recombines them: `x` comes from `self`, `y` from `other`.
    /// The remaining two fields are dropped.
    pub fn mixup<V, W>(self, other: PointWithTwoGenerics<V, W>) -> (mixed: PointWithTwoGenerics<
        T,
        W,
    >)
        ensures
            mixed == (PointWithTwoGenerics { x: self.x, y: other.y }),
    {
        PointWithTwoGenerics { x: self.x, y: other.y }
    }
}

/// Reading the first coordinate is idempotent: any two reads of one point agree, and
/// both give the point's `x` field.
pub proof fn lemma_x_is_idempotent<T>(p: Point<T>)
    ensures
        p.x() == p.x(),
        *p.x() == p.x,
{
}

} // verus!
