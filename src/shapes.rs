use vstd::prelude::*;

verus! {

/// An axis-aligned rectangle given by its side lengths.
#[derive(Clone, Copy, PartialEq, Eq, Structural, Debug)]
pub struct Rectangle {
    pub width: u32,
    pub height: u32,
}

/// The area of a rectangle with the given sides.
pub open spec fn area_of(width: u32, height: u32) -> int {
    width as int * height as int
}

impl Rectangle {
    /// The rectangle's area; it must fit in a `u32`.
    pub fn area(&self) -> (r: u32)
        requires
            area_of(self.width, self.height) <= u32::MAX,
        ensures
            r as int == area_of(self.width, self.height),
    {
        self.width * self.height
    }

    /// Whether `other` fits strictly inside `self` along both sides.
    pub fn can_hold(&self, other: &Rectangle) -> (r: bool)
        ensures
            r == (self.width > other.width && self.height > other.height),
    {
        self.width > other.width && self.height > other.height
    }

    /// A square with sides of length `size`.
    pub fn square(size: u32) -> (r: Self)
        ensures
            r.width == size,
            r.height == size,
    {
        Self { width: size, height: size }
    }
}

/// The area of `rect`, as a free function; it must fit in a `u32`.
pub fn area(rect: &Rectangle) -> (r: u32)
    requires
        area_of(rect.width, rect.height) <= u32::MAX,
    ensures
        r as int == area_of(rect.width, rect.height),
{
    rect.width * rect.height
}

} // verus!
