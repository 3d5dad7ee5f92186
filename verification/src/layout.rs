//! The four sides of a box, in the order top, right, bottom, left.

use vstd::prelude::*;

verus! {

/// The same value on all four sides; for corners, on all four corners.
pub fn all_sides<T: Copy>(all: T) -> (sides: (T, T, T, T))
    ensures
        sides == (all, all, all, all),
{
    (all, all, all, all)
}

/// `x` on the right and on the left, `y` on top and at the bottom.
pub fn axis_sides<T: Copy>(x: T, y: T) -> (sides: (T, T, T, T))
    ensures
        sides == (y, x, y, x),
{
    (y, x, y, x)
}

/// The sides with `x` on the right and on the left; top and bottom stay.
pub fn with_x<T: Copy>(sides: (T, T, T, T), x: T) -> (changed: (T, T, T, T))
    ensures
        changed == (sides.0, x, sides.2, x),
{
    (sides.0, x, sides.2, x)
}

/// The sides with `y` on top and at the bottom; right and left stay.
pub fn with_y<T: Copy>(sides: (T, T, T, T), y: T) -> (changed: (T, T, T, T))
    ensures
        changed == (y, sides.1, y, sides.3),
{
    (y, sides.1, y, sides.3)
}

/// The sides with another value on top.
pub fn with_top<T: Copy>(sides: (T, T, T, T), top: T) -> (changed: (T, T, T, T))
    ensures
        changed == (top, sides.1, sides.2, sides.3),
{
    (top, sides.1, sides.2, sides.3)
}

/// The sides with another value on the right.
pub fn with_right<T: Copy>(sides: (T, T, T, T), right: T) -> (changed: (T, T, T, T))
    ensures
        changed == (sides.0, right, sides.2, sides.3),
{
    (sides.0, right, sides.2, sides.3)
}

/// The sides with another value at the bottom.
pub fn with_bottom<T: Copy>(sides: (T, T, T, T), bottom: T) -> (changed: (T, T, T, T))
    ensures
        changed == (sides.0, sides.1, bottom, sides.3),
{
    (sides.0, sides.1, bottom, sides.3)
}

/// The sides with another value on the left.
pub fn with_left<T: Copy>(sides: (T, T, T, T), left: T) -> (changed: (T, T, T, T))
    ensures
        changed == (sides.0, sides.1, sides.2, left),
{
    (sides.0, sides.1, sides.2, left)
}

} // verus!
