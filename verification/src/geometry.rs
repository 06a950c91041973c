//! Integer points, extents and axis-aligned boxes.

use vstd::prelude::*;

verus! {

/// Whether an unbounded integer is a value of `i32`.
pub open spec fn in_i32(v: int) -> bool {
    i32::MIN <= v <= i32::MAX
}

/// A point or an extent on the pixel grid.
#[derive(Clone, Copy, Debug, PartialEq, Eq, Structural)]
pub struct Vec2 {
    pub x: i32,
    pub y: i32,
}

impl Vec2 {
    /// The origin, which is also the empty extent.
    pub open spec fn spec_zero() -> Vec2 {
        Vec2 { x: 0, y: 0 }
    }

    /// The larger of the two values on each axis.
    pub open spec fn spec_component_max(self, other: Vec2) -> Vec2 {
        Vec2 {
            x: if self.x >= other.x { self.x } else { other.x },
            y: if self.y >= other.y { self.y } else { other.y },
        }
    }

    /// Whether the sum of the two vectors can be represented.
    pub open spec fn can_add(self, other: Vec2) -> bool {
        &&& i32::MIN <= self.x + other.x <= i32::MAX
        &&& i32::MIN <= self.y + other.y <= i32::MAX
    }

    /// Whether the difference of the two vectors can be represented.
    pub open spec fn can_sub(self, other: Vec2) -> bool {
        &&& i32::MIN <= self.x - other.x <= i32::MAX
        &&& i32::MIN <= self.y - other.y <= i32::MAX
    }

    pub fn new(x: i32, y: i32) -> (v: Vec2)
        ensures
            v.x == x,
            v.y == y,
    {
        Vec2 { x, y }
    }

    #[verifier::when_used_as_spec(spec_zero)]
    pub fn zero() -> (v: Vec2)
        ensures
            v == Vec2::spec_zero(),
    {
        Vec2 { x: 0, y: 0 }
    }

    #[verifier::when_used_as_spec(spec_component_max)]
    pub fn component_max(self, other: Vec2) -> (v: Vec2)
        ensures
            v == self.spec_component_max(other),
    {
        Vec2 {
            x: if self.x >= other.x { self.x } else { other.x },
            y: if self.y >= other.y { self.y } else { other.y },
        }
    }

    /// The sum, axis by axis.
    pub fn plus(self, other: Vec2) -> (v: Vec2)
        requires
            self.can_add(other),
        ensures
            v.x == self.x + other.x,
            v.y == self.y + other.y,
    {
        Vec2 { x: self.x + other.x, y: self.y + other.y }
    }

    /// The difference, axis by axis.
    pub fn minus(self, other: Vec2) -> (v: Vec2)
        requires
            self.can_sub(other),
        ensures
            v.x == self.x - other.x,
            v.y == self.y - other.y,
    {
        Vec2 { x: self.x - other.x, y: self.y - other.y }
    }
}

/// Whether `point` lies in the box that starts at `pos` and extends over
/// `size`: at or after its first corner and before the corner just past its
/// last pixel, on both axes.
pub open spec fn spec_box_contains(pos: Vec2, size: Vec2, point: Vec2) -> bool {
    &&& pos.x <= point.x < pos.x + size.x
    &&& pos.y <= point.y < pos.y + size.y
}

/// Whether `point` lies in the box that starts at `pos` and extends over
/// `size`.
#[verifier::when_used_as_spec(spec_box_contains)]
pub fn box_contains(pos: Vec2, size: Vec2, point: Vec2) -> (inside: bool)
    ensures
        inside == spec_box_contains(pos, size, point),
{
    let end_x: i64 = pos.x as i64 + size.x as i64;
    let end_y: i64 = pos.y as i64 + size.y as i64;
    pos.x <= point.x && (point.x as i64) < end_x && pos.y <= point.y && (point.y as i64) < end_y
}

/// A rectangle given by two corners, as used for placing images.
#[derive(Clone, Copy, Debug, PartialEq, Eq, Structural)]
pub struct Rect {
    pub start: Vec2,
    pub end: Vec2,
}

} // verus!
