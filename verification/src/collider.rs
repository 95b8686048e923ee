use vstd::prelude::*;

use crate::vec2::Vec2;

verus! {

/// Whether a collider takes part in collision tests. `Disabled` is used as
/// the collision-removal mechanism for destroyed entities that remain in a
/// collection until a purge.
#[derive(Clone, Copy, Debug, PartialEq, Eq, Structural)]
pub enum ColliderState {
    Enabled,
    Disabled,
}

/// A circular collision shape: a center (kept synchronized with the owning
/// body's position after each physics step), a radius, and an
/// enabled/disabled toggle.
#[derive(Clone, Copy, Debug, PartialEq, Eq, Structural)]
pub struct Collider {
    pub state: ColliderState,
    pub p: Vec2,
    pub r: i64,
}

pub open spec fn sq(x: int) -> int {
    x * x
}

impl Collider {
    pub open spec fn enabled(self) -> bool {
        self.state is Enabled
    }

    /// A radius is never negative.
    pub open spec fn wf(self) -> bool {
        self.r >= 0
    }

    /// The collision relation: false when either collider is disabled;
    /// otherwise true exactly when the squared distance between the centers
    /// is at most the square of the larger radius. (The larger radius, not
    /// the sum of the radii: the two circles collide when one center lies
    /// within the larger circle placed at the other center.)
    pub open spec fn colliding(self, other: Collider) -> bool {
        &&& self.enabled()
        &&& other.enabled()
        &&& sq(other.p.x - self.p.x) + sq(other.p.y - self.p.y) <= sq(
            if self.r >= other.r {
                self.r as int
            } else {
                other.r as int
            },
        )
    }

    pub fn new(p: Vec2, r: i64) -> (c: Collider)
        ensures
            c == (Collider { state: ColliderState::Enabled, p, r }),
    {
        Collider { state: ColliderState::Enabled, p, r }
    }

    /// Decides `colliding`: false if either collider is disabled, else the
    /// max-of-radii distance test, computed in `i128` where none of the
    /// differences, squares or sums can overflow.
    pub fn are_colliding(&self, other: &Collider) -> (r: bool)
        requires
            self.wf(),
            other.wf(),
        ensures
            r == self.colliding(*other),
    {
        match (self.state, other.state) {
            (ColliderState::Disabled, _) => false,
            (_, ColliderState::Disabled) => false,
            (_, _) => {
                let dx: i128 = other.p.x as i128 - self.p.x as i128;
                let dy: i128 = other.p.y as i128 - self.p.y as i128;
                let m: i128 = if self.r >= other.r {
                    self.r as i128
                } else {
                    other.r as i128
                };
                if dx > m || dx < -m || dy > m || dy < -m {
                    proof {
                        lemma_far_axis_no_overlap(dx as int, dy as int, m as int);
                    }
                    false
                } else {
                    proof {
                        lemma_near_squares_bounded(dx as int, dy as int, m as int);
                    }
                    dx * dx + dy * dy <= m * m
                }
            },
        }
    }

    pub fn on(&mut self)
        ensures
            *final(self) == (Collider { state: ColliderState::Enabled, ..*old(self) }),
    {
        self.state = ColliderState::Enabled;
    }

    pub fn off(&mut self)
        ensures
            *final(self) == (Collider { state: ColliderState::Disabled, ..*old(self) }),
    {
        self.state = ColliderState::Disabled;
    }
}

/// If one axis distance already exceeds the radius, the squared distance
/// exceeds the squared radius.
proof fn lemma_far_axis_no_overlap(dx: int, dy: int, m: int)
    requires
        m >= 0,
        dx > m || dx < -m || dy > m || dy < -m,
    ensures
        sq(dx) + sq(dy) > sq(m),
{
    assert(sq(dx) + sq(dy) > sq(m)) by (nonlinear_arith)
        requires
            m >= 0,
            dx > m || dx < -m || dy > m || dy < -m,
    ;
}

/// With both axis distances within the radius, the squares and their sum
/// stay within `i128` range.
proof fn lemma_near_squares_bounded(dx: int, dy: int, m: int)
    requires
        0 <= m <= i64::MAX,
        -m <= dx <= m,
        -m <= dy <= m,
    ensures
        0 <= sq(dx) <= sq(m),
        0 <= sq(dy) <= sq(m),
        sq(dx) + sq(dy) <= i128::MAX,
        sq(m) <= i128::MAX,
{
    assert(0 <= sq(dx) <= sq(m) && 0 <= sq(dy) <= sq(m) && sq(m) <= i64::MAX * i64::MAX)
        by (nonlinear_arith)
        requires
            0 <= m <= i64::MAX,
            -m <= dx <= m,
            -m <= dy <= m,
    ;
}

/// A disabled collider never reports a collision, whatever the distance
/// between the centers, zero included.
pub proof fn lemma_disabled_never_collides(a: Collider, b: Collider)
    requires
        !a.enabled() || !b.enabled(),
    ensures
        !a.colliding(b),
        !b.colliding(a),
{
}

/// The collision relation is symmetric.
pub proof fn lemma_colliding_symmetric(a: Collider, b: Collider)
    ensures
        a.colliding(b) == b.colliding(a),
{
    assert(sq(b.p.x - a.p.x) == sq(a.p.x - b.p.x)) by (nonlinear_arith);
    assert(sq(b.p.y - a.p.y) == sq(a.p.y - b.p.y)) by (nonlinear_arith);
}

} // verus!
