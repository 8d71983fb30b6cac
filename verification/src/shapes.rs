//! Rectangles and points: areas, containment, and generic field mixing.

use vstd::prelude::*;

verus! {

/// A rectangle given by its side lengths.
pub struct Rectangle {
    /// Horizontal side.
    pub width: i32,
    /// Vertical side.
    pub height: i32,
}

impl Rectangle {
    /// The area: the product of the sides. The caller keeps the product
    /// within `i32`.
    pub fn area(&self) -> (r: i32)
        requires
            i32::MIN <= self.width as int * self.height as int <= i32::MAX,
        ensures
            r == self.width as int * self.height as int,
    {
        self.width * self.height
    }

    /// Whether the other rectangle fits strictly inside this one.
    pub fn can_hold(&self, other: &Rectangle) -> (r: bool)
        ensures
            r == (self.width > other.width && self.height > other.height),
    {
        self.width > other.width && self.height > other.height
    }

    /// A square with the given side.
    pub fn square(size: i32) -> (r: Rectangle)
        ensures
            r.width == size,
            r.height == size,
    {
        Rectangle { width: size, height: size }
    }
}

/// A rectangle given as a (width, height) pair.
pub struct Rect(pub i32, pub i32);

/// The area of the pair-style rectangle. The caller keeps the product
/// within `i32`.
pub fn calculate(rect: &Rect) -> (r: i32)
    requires
        i32::MIN <= rect.0 as int * rect.1 as int <= i32::MAX,
    ensures
        r == rect.0 as int * rect.1 as int,
{
    rect.0 * rect.1
}

/// A point with both coordinates of one type.
pub struct Point<T> {
    /// Horizontal coordinate.
    pub x: T,
    /// Vertical coordinate.
    pub y: T,
}

impl<T> Point<T> {
    /// Borrow the horizontal coordinate.
    pub fn x(&self) -> (r: &T)
        ensures
            *r == self.x,
    {
        &self.x
    }
}

/// A point whose coordinates may have different types.
pub struct PointTwo<T, U> {
    /// Horizontal coordinate.
    pub x: T,
    /// Vertical coordinate.
    pub y: U,
}

impl<T, U> PointTwo<T, U> {
    /// Combine this point's first coordinate with the other's second.
    pub fn mixup<V, W>(self, other: PointTwo<V, W>) -> (r: PointTwo<T, W>)
        ensures
            r.x == self.x,
            r.y == other.y,
    {
        PointTwo { x: self.x, y: other.y }
    }
}

} // verus!
