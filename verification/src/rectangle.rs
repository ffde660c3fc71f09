//! Rectangles with whole-number sides.

use vstd::prelude::*;

verus! {

/// A rectangle measured in whole units.
#[derive(Debug)]
pub struct Rectangle {
    pub width: u32,
    pub height: u32,
}

impl Rectangle {
    /// The rectangle whose sides both measure `size`.
    pub fn square(size: u32) -> (square: Rectangle)
        ensures
            square.width == size,
            square.height == size,
    {
        Rectangle { width: size, height: size }
    }

    /// Three times `number`, for every `number` whose triple fits in a `u32`.
    pub fn times_three(number: u32) -> (triple: u32)
        requires
            number * 3 <= u32::MAX,
        ensures
            triple == number * 3,
    {
        number * 3
    }
}

} // verus!
