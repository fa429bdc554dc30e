use vstd::prelude::*;

verus! {

/// A rectangle with unsigned dimensions.
#[derive(Debug)]
pub struct Rectangle {
    pub width: u32,
    pub height: u32,
}

impl Rectangle {
    /// The area of the rectangle. The product of the two dimensions must
    /// fit in `u32`.
    pub fn area(&self) -> (r: u32)
        requires
            self.width * self.height <= u32::MAX,
        ensures
            r == self.width * self.height,
    {
        self.width * self.height
    }

    /// Whether `self` can hold `other`: true exactly when both of
    /// `other`'s dimensions are no larger than the corresponding
    /// dimension of `self`.
    pub fn can_hold(&self, other: &Rectangle) -> (r: bool)
        ensures
            r == (self.width >= other.width && self.height >= other.height),
    {
        if self.width >= other.width && self.height >= other.height {
            return true;
        }
        return false;
    }
}

} // verus!
