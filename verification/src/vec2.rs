use vstd::prelude::*;

verus! {

/// A 2D vector with integer components, the coordinate type of the whole
/// simulation: positions, velocities, accelerations and forces.
#[derive(Clone, Copy, Debug, PartialEq, Eq, Structural)]
pub struct Vec2 {
    pub x: i64,
    pub y: i64,
}

impl Vec2 {
    /// Component-wise vector addition.
    pub fn add(self, other: Vec2) -> (r: Vec2)
        requires
            i64::MIN <= self.x + other.x <= i64::MAX,
            i64::MIN <= self.y + other.y <= i64::MAX,
        ensures
            r.x == self.x + other.x,
            r.y == self.y + other.y,
    {
        Vec2 { x: self.x + other.x, y: self.y + other.y }
    }

    /// The vector scaled by the integer factor `k`.
    pub fn scale(self, k: i64) -> (r: Vec2)
        requires
            i64::MIN <= self.x * k <= i64::MAX,
            i64::MIN <= self.y * k <= i64::MAX,
        ensures
            r.x == self.x * k,
            r.y == self.y * k,
    {
        Vec2 { x: self.x * k, y: self.y * k }
    }
}

} // verus!
