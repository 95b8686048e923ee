use vstd::prelude::*;

use crate::angle::{tri_cos, tri_cos_i, tri_sin, tri_sin_i, QUARTER};
use crate::collider::Collider;
use crate::movable_body::MovableBody;
use crate::projectile::{spawned_projectile, ProjectileManager};
use crate::traits::{Collides, ColliderType};
use crate::vec2::Vec2;

verus! {

/// The magnitude of the player's rotation velocity while a rotation key is
/// held, in angle units per tick.
pub const ROTATION_VELOCITY: i64 = 153;

/// The magnitude of the thrust force along an axis-aligned heading, in
/// pixels per tick squared.
pub const THRUST_FORCE: i64 = 100;

/// The player's rotation intent: rotating towards positive angles,
/// negative angles, or not at all.
#[derive(Clone, Copy, Debug, PartialEq, Eq, Structural)]
pub enum RotationState {
    Positive,
    Negative,
    Neutral,
}

/// The player craft: a collider, a body, a thrust flag and a rotation
/// intent. The two intent fields are set by input handling and read by
/// `update`.
#[derive(Clone, Copy, Debug, PartialEq, Eq, Structural)]
pub struct Player {
    pub c: Collider,
    pub b: MovableBody,
    pub thrust: bool,
    pub rotating: RotationState,
}

/// The rotation velocity the player's intent asks for.
pub open spec fn rv_of(rs: RotationState) -> int {
    match rs {
        RotationState::Positive => ROTATION_VELOCITY as int,
        RotationState::Negative => -(ROTATION_VELOCITY as int),
        RotationState::Neutral => 0,
    }
}

/// The force the player's thrust flag asks for: `THRUST_FORCE` along the
/// heading `r` when thrusting, zero otherwise.
pub open spec fn thrust_force(thrust: bool, r: int) -> Vec2 {
    if thrust {
        Vec2 {
            x: (THRUST_FORCE * tri_sin(r) / (QUARTER as int)) as i64,
            y: (THRUST_FORCE * tri_cos(r) / (QUARTER as int)) as i64,
        }
    } else {
        Vec2 { x: 0, y: 0 }
    }
}

/// The player's body with the intent fields folded in, as it stands just
/// before the physics step of `update`.
pub open spec fn prepared_body(p: Player) -> MovableBody {
    MovableBody { rv: rv_of(p.rotating) as i64, f: thrust_force(p.thrust, p.b.r as int), ..p.b }
}

/// The player after one `update(dt)`: the rotation intent becomes the
/// body's rotation velocity, the thrust flag becomes the applied force,
/// the body steps, and the collider center follows.
pub open spec fn player_stepped(p: Player, dt: int) -> Player {
    let b2 = prepared_body(p).stepped(dt);
    Player { b: b2, c: Collider { p: b2.p, ..p.c }, ..p }
}

impl Player {
    pub fn new(body: MovableBody, collider: Collider) -> (p: Player)
        ensures
            p == (Player {
                b: body,
                c: collider,
                thrust: false,
                rotating: RotationState::Neutral,
            }),
    {
        Player { b: body, c: collider, thrust: false, rotating: RotationState::Neutral }
    }

    /// Whether the coming `update(dt)` computes without overflow, decided
    /// at run time on the body with the intents folded in.
    pub fn check_fits(&self, dt: i64) -> (ok: bool)
        ensures
            ok == prepared_body(*self).fits(dt as int),
    {
        let rv: i64 = match self.rotating {
            RotationState::Positive => ROTATION_VELOCITY,
            RotationState::Negative => -ROTATION_VELOCITY,
            RotationState::Neutral => 0,
        };
        let mut force_vector = Vec2 { x: 0, y: 0 };
        if self.thrust {
            force_vector = Vec2 {
                x: (THRUST_FORCE * tri_sin_i(self.b.r)) / QUARTER,
                y: (THRUST_FORCE * tri_cos_i(self.b.r)) / QUARTER,
            };
        }
        let prepared = MovableBody { rv, f: force_vector, ..self.b };
        prepared.check_fits(dt)
    }

    /// One player step: fold the intents into the body, apply the thrust
    /// force, step the physics, and drag the collider center along.
    pub fn update(&mut self, dt: i64)
        requires
            dt >= 0,
            prepared_body(*old(self)).fits(dt as int),
        ensures
            *final(self) == player_stepped(*old(self), dt as int),
    {
        match self.rotating {
            RotationState::Positive => self.b.rv = ROTATION_VELOCITY,
            RotationState::Negative => self.b.rv = -ROTATION_VELOCITY,
            RotationState::Neutral => self.b.rv = 0,
        }

        let mut force_vector = Vec2 { x: 0, y: 0 };
        if self.thrust {
            force_vector = Vec2 {
                x: (THRUST_FORCE * tri_sin_i(self.b.r)) / QUARTER,
                y: (THRUST_FORCE * tri_cos_i(self.b.r)) / QUARTER,
            };
        }

        self.b.apply_force(force_vector);
        self.b.update(dt);
        self.c.p = self.b.p;
    }

    pub fn set_thrust(&mut self, b: bool)
        ensures
            *final(self) == (Player { thrust: b, ..*old(self) }),
    {
        self.thrust = b;
    }

    pub fn set_rotation(&mut self, state: RotationState)
        ensures
            *final(self) == (Player { rotating: state, ..*old(self) }),
    {
        self.rotating = state;
    }

    /// Fire a projectile from the player's position along its heading.
    pub fn shoot_projectile(&self, projectile_manager: &mut ProjectileManager)
        ensures
            final(projectile_manager).window_size == old(projectile_manager).window_size,
            final(projectile_manager).projectiles@ == old(projectile_manager).projectiles@.push(
                spawned_projectile(self.b.p, self.b.r as int, old(projectile_manager).window_size),
            ),
    {
        projectile_manager.spawn_projectile(self.b.p, self.b.r);
    }
}

impl Collides for Player {
    open spec fn spec_collider(&self) -> Collider {
        self.c
    }

    open spec fn spec_tag(&self) -> ColliderType {
        ColliderType::Player
    }

    fn get_collider(&self) -> (c: &Collider) {
        &self.c
    }

    fn collider_type(&self) -> (t: ColliderType) {
        ColliderType::Player
    }
}

impl Player {
    /// Delegates to the collider test against the other entity's collider.
    pub fn collides_with<C: Collides>(&self, other: &C) -> (r: bool)
        requires
            self.c.wf(),
            other.spec_collider().wf(),
        ensures
            r == self.c.colliding(other.spec_collider()),
    {
        self.c.are_colliding(other.get_collider())
    }

    /// The player's reaction to a collision, keyed on the other entity's
    /// tag. No kind of collision partner provokes a reaction today.
    pub fn on_collision<C: Collides>(&mut self, other: &C)
        ensures
            *final(self) == *old(self),
    {
        let t = other.collider_type();
        match t {
            ColliderType::Asteroid => (),
            _ => (),
        }
    }
}

} // verus!
