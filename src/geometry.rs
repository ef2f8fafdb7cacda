//! Small value types with an explicit addition.
use vstd::prelude::*;
use vstd::string::*;

use crate::text::{decimal, i32_text};

verus! {

/// A point in the plane.
#[derive(Clone, Copy, Debug, PartialEq, Eq)]
pub struct Point {
    pub x: i32,
    pub y: i32,
}

impl Point {
    /// Adds two points coordinate by coordinate.
    pub fn add(self, other: Point) -> (r: Point)
        requires
            i32::MIN <= self.x + other.x <= i32::MAX,
            i32::MIN <= self.y + other.y <= i32::MAX,
        ensures
            r.x == self.x + other.x,
            r.y == self.y + other.y,
    {
        Point { x: self.x + other.x, y: self.y + other.y }
    }

    /// The point written as `(x, y)`.
    pub fn to_string(&self) -> (r: String)
        ensures
            r@ == "("@ + decimal(self.x as int) + ", "@ + decimal(self.y as int) + ")"@,
    {
        let mut r = String::from_str("(");
        r.append(i32_text(self.x).as_str());
        r.append(", ");
        r.append(i32_text(self.y).as_str());
        r.append(")");
        r
    }
}

/// A length in millimetres.
#[derive(Clone, Copy, Debug, PartialEq, Eq)]
pub struct Millimeters(pub u32);

/// A length in metres.
#[derive(Clone, Copy, Debug, PartialEq, Eq)]
pub struct Meters(pub u32);

impl Millimeters {
    /// Adds a length in metres, giving the sum in millimetres.
    pub fn add(self, other: Meters) -> (r: Millimeters)
        requires
            self.0 + other.0 * 1000 <= u32::MAX,
        ensures
            r.0 == self.0 + other.0 * 1000,
    {
        Millimeters(self.0 + other.0 * 1000)
    }
}

/// Five times `e`.
pub fn times_five(e: i32) -> (r: i32)
    requires
        i32::MIN <= 5 * e <= i32::MAX,
    ensures
        r == 5 * e,
{
    5 * e
}

} // verus!
