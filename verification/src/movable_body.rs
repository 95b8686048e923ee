use vstd::prelude::*;

use crate::angle::{trunc_rem, TURN};
use crate::vec2::Vec2;

verus! {

/// Whether a body teleports to the opposite window edge when it leaves the
/// window, or keeps flying unbounded.
#[derive(Clone, Copy, Debug, PartialEq, Eq, Structural)]
pub enum BoundaryModeEnum {
    Wrap,
    NoWrap,
}

/// The life state of a body. `Dead` is terminal: a dead entity is excluded
/// from update, render and collision, though it may linger in a manager's
/// collection until a purge.
#[derive(Clone, Copy, Debug, PartialEq, Eq, Structural)]
pub enum BodyState {
    Live,
    Dead,
}

/// The physical state of one entity: position, velocity, acceleration and
/// the pending force, a rotation angle (in angle units, see `crate::angle`)
/// with its angular velocity, the window it is bounded by, the boundary
/// mode, and the life state.
#[derive(Clone, Copy, Debug, PartialEq, Eq, Structural)]
pub struct MovableBody {
    pub p: Vec2,
    pub v: Vec2,
    pub a: Vec2,
    pub f: Vec2,
    pub r: i64,
    pub rv: i64,
    pub window_size: Vec2,
    pub boundary_mode: BoundaryModeEnum,
    pub state: BodyState,
}

/// True when `x` fits in an `i64`.
pub open spec fn fits_i64(x: int) -> bool {
    i64::MIN <= x <= i64::MAX
}

/// One coordinate after the wrap correction: a coordinate strictly beyond
/// the window extent teleports to 0, one strictly below 0 teleports to the
/// extent. This is a discrete edge teleport, not a modulo wrap: a body that
/// overshoots by more than one step's travel still lands exactly on 0 or on
/// the extent.
pub open spec fn wrap_coord(x: int, w: int) -> int {
    if x > w {
        0
    } else if x < 0 {
        w
    } else {
        x
    }
}

impl MovableBody {
    /// The position coordinates advanced by one step, before any boundary
    /// correction.
    pub open spec fn moved_x(self, dt: int) -> int {
        self.p.x + self.v.x * dt
    }

    pub open spec fn moved_y(self, dt: int) -> int {
        self.p.y + self.v.y * dt
    }

    /// The position after one step, with the boundary correction of the
    /// body's boundary mode applied.
    pub open spec fn stepped_x(self, dt: int) -> int {
        match self.boundary_mode {
            BoundaryModeEnum::Wrap => wrap_coord(self.moved_x(dt), self.window_size.x as int),
            BoundaryModeEnum::NoWrap => self.moved_x(dt),
        }
    }

    pub open spec fn stepped_y(self, dt: int) -> int {
        match self.boundary_mode {
            BoundaryModeEnum::Wrap => wrap_coord(self.moved_y(dt), self.window_size.y as int),
            BoundaryModeEnum::NoWrap => self.moved_y(dt),
        }
    }

    /// All intermediate values of one `update` step fit in `i64`, so the
    /// step computes without overflow. This demands nothing beyond machine
    /// limits.
    pub open spec fn fits(self, dt: int) -> bool {
        &&& fits_i64(self.v.x * dt) && fits_i64(self.moved_x(dt))
        &&& fits_i64(self.v.y * dt) && fits_i64(self.moved_y(dt))
        &&& fits_i64(self.a.x * dt) && fits_i64(self.v.x + self.a.x * dt)
        &&& fits_i64(self.a.y * dt) && fits_i64(self.v.y + self.a.y * dt)
        &&& fits_i64(self.f.x * dt) && fits_i64(self.a.x + self.f.x * dt)
        &&& fits_i64(self.f.y * dt) && fits_i64(self.a.y + self.f.y * dt)
        &&& fits_i64(self.rv * dt) && i64::MIN < self.r + self.rv * dt <= i64::MAX
    }

    /// The body after one `update(dt)` step: the position advances by
    /// `v * dt` and is boundary-corrected, the velocity advances by `a * dt`,
    /// the acceleration advances by `f * dt` (so a force set by `apply_force`
    /// reaches the velocity one step after it reaches the acceleration), and
    /// the rotation advances by `rv * dt`, reduced modulo a full turn with
    /// the sign of the dividend. Everything else is unchanged.
    pub open spec fn stepped(self, dt: int) -> MovableBody {
        MovableBody {
            p: Vec2 { x: self.stepped_x(dt) as i64, y: self.stepped_y(dt) as i64 },
            v: Vec2 { x: (self.v.x + self.a.x * dt) as i64, y: (self.v.y + self.a.y * dt) as i64 },
            a: Vec2 { x: (self.a.x + self.f.x * dt) as i64, y: (self.a.y + self.f.y * dt) as i64 },
            r: trunc_rem(self.r + self.rv * dt, TURN as int) as i64,
            ..self
        }
    }

    pub fn new(p: Vec2, window_size: Vec2) -> (r: MovableBody)
        ensures
            r == (MovableBody {
                p,
                v: Vec2 { x: 0, y: 0 },
                a: Vec2 { x: 0, y: 0 },
                f: Vec2 { x: 0, y: 0 },
                r: 0,
                rv: 0,
                window_size,
                boundary_mode: BoundaryModeEnum::Wrap,
                state: BodyState::Live,
            }),
    {
        MovableBody {
            p,
            v: Vec2 { x: 0, y: 0 },
            a: Vec2 { x: 0, y: 0 },
            f: Vec2 { x: 0, y: 0 },
            r: 0,
            rv: 0,
            window_size,
            boundary_mode: BoundaryModeEnum::Wrap,
            state: BodyState::Live,
        }
    }

    /// `self.fits(dt)`, decided at run time (the products are taken in
    /// `i128`, where they cannot overflow).
    pub fn check_fits(&self, dt: i64) -> (ok: bool)
        ensures
            ok == self.fits(dt as int),
    {
        let vx = mul_wide(self.v.x, dt);
        let vy = mul_wide(self.v.y, dt);
        let ax = mul_wide(self.a.x, dt);
        let ay = mul_wide(self.a.y, dt);
        let fx = mul_wide(self.f.x, dt);
        let fy = mul_wide(self.f.y, dt);
        let rv = mul_wide(self.rv, dt);
        in_i64(vx) && in_i64(self.p.x as i128 + vx)
            && in_i64(vy) && in_i64(self.p.y as i128 + vy)
            && in_i64(ax) && in_i64(self.v.x as i128 + ax)
            && in_i64(ay) && in_i64(self.v.y as i128 + ay)
            && in_i64(fx) && in_i64(self.a.x as i128 + fx)
            && in_i64(fy) && in_i64(self.a.y as i128 + fy)
            && in_i64(rv) && above_min(self.r as i128 + rv) && in_i64_upper(self.r as i128 + rv)
    }

    /// One physics step. The new state is exactly `old(self).stepped(dt)`;
    /// see there for the update rule.
    pub fn update(&mut self, dt: i64)
        requires
            dt >= 0,
            old(self).fits(dt as int),
        ensures
            *final(self) == old(self).stepped(dt as int),
    {
        let moved = self.p.add(self.v.scale(dt));
        let mut px: i64 = moved.x;
        let mut py: i64 = moved.y;

        match self.boundary_mode {
            BoundaryModeEnum::Wrap => {
                if px > self.window_size.x {
                    px = 0;
                }
                if px < 0 {
                    px = self.window_size.x;
                }
                if py > self.window_size.y {
                    py = 0;
                }
                if py < 0 {
                    py = self.window_size.y;
                }
                self.p = Vec2 { x: px, y: py };
            },
            BoundaryModeEnum::NoWrap => {
                self.p = Vec2 { x: px, y: py };
            },
        }

        self.v = self.v.add(self.a.scale(dt));
        self.a = self.a.add(self.f.scale(dt));
        self.r = crate::angle::wrap_angle(self.r + self.rv * dt);
    }

    /// Record `force` as the input for coming steps. It replaces the
    /// previous force; it does not add to it.
    pub fn apply_force(&mut self, force: Vec2)
        ensures
            *final(self) == (MovableBody { f: force, ..*old(self) }),
    {
        self.f = force;
    }
}

/// Repeated updates are deterministic: equal bodies stepped by equal `dt`
/// remain equal, so a run of the simulation is reproducible from its
/// initial state alone.
pub proof fn lemma_step_deterministic(b1: MovableBody, b2: MovableBody, dt: int)
    requires
        b1 == b2,
    ensures
        b1.stepped(dt) == b2.stepped(dt),
{
}

/// The wrap boundary rule at the edge: in `Wrap` mode a step that carries
/// the x coordinate strictly past the window extent lands on 0, and one
/// that carries it strictly below 0 lands on the extent (and likewise in
/// y). `stepped` casts from `int`, and 0 and the extent are `i64` values,
/// so no side condition is needed.
pub proof fn lemma_wrap_boundary(b: MovableBody, dt: int)
    requires
        b.boundary_mode is Wrap,
    ensures
        b.moved_x(dt) > b.window_size.x ==> b.stepped(dt).p.x == 0,
        b.moved_x(dt) < 0 && b.window_size.x >= 0 ==> b.stepped(dt).p.x == b.window_size.x,
        b.moved_y(dt) > b.window_size.y ==> b.stepped(dt).p.y == 0,
        b.moved_y(dt) < 0 && b.window_size.y >= 0 ==> b.stepped(dt).p.y == b.window_size.y,
{
}

/// The product of two `i64` values, computed in `i128`, where it cannot
/// overflow.
fn mul_wide(a: i64, b: i64) -> (r: i128)
    ensures
        r == a as int * b as int,
{
    proof {
        assert(a as int * b as int <= i128::MAX && i128::MIN <= a as int * b as int)
            by (nonlinear_arith)
            requires
                i64::MIN <= a <= i64::MAX,
                i64::MIN <= b <= i64::MAX,
        ;
    }
    (a as i128) * (b as i128)
}

fn in_i64(x: i128) -> (r: bool)
    ensures
        r == fits_i64(x as int),
{
    i64::MIN as i128 <= x && x <= i64::MAX as i128
}

fn above_min(x: i128) -> (r: bool)
    ensures
        r == (x > i64::MIN),
{
    x > i64::MIN as i128
}

fn in_i64_upper(x: i128) -> (r: bool)
    ensures
        r == (x <= i64::MAX),
{
    x <= i64::MAX as i128
}

} // verus!
