use vstd::prelude::*;

use crate::collider::{Collider, ColliderState};
use crate::movable_body::{BodyState, MovableBody};
use crate::traits::{Collides, ColliderType};
use crate::vec2::Vec2;

verus! {

/// How many children a split is meant to produce.
pub const ASTEROID_SPLIT_FACTOR: u32 = 4;

/// How far a child's position and velocity may scatter from the parent's.
pub const ASTEROID_SPLIT_VARIANCE: i64 = 2;

/// The collider radius of a spawned asteroid.
pub const ASTEROID_RADIUS: i64 = 25;

/// The nominal size of a spawned asteroid.
pub const ASTEROID_SIZE: i64 = 50;

/// How many asteroids a manager seeds at construction.
pub const INITIAL_ASTEROID_COUNT: usize = 9;

/// Magnitude bound (exclusive) on a spawned asteroid's velocity components.
pub const ASTEROID_SPAWN_SPEED: i64 = 100;

/// Magnitude bound (exclusive) on a spawned asteroid's rotation velocity.
pub const ASTEROID_SPAWN_SPIN: i64 = 10;

/// The size class governing an asteroid's split behavior on destruction.
#[derive(Clone, Copy, Debug, PartialEq, Eq, Structural)]
pub enum AsteroidSizeClass {
    Small,
    Medium,
    Large,
}

/// A drifting asteroid: an identity (`id`, equal to a real OS process id
/// when spawned through the pid-mapping constructor), a nominal size, a
/// size class, a collider and a body.
#[derive(Clone, Copy, Debug, PartialEq, Eq, Structural)]
pub struct Asteroid {
    pub id: u32,
    pub size: i64,
    pub size_class: AsteroidSizeClass,
    pub c: Collider,
    pub b: MovableBody,
}

impl Asteroid {
    /// The asteroid after one `update(dt)`: a live asteroid's body steps
    /// and its collider center follows the body; a dead one is untouched.
    pub open spec fn stepped(self, dt: int) -> Asteroid {
        if self.b.state is Live {
            let b2 = self.b.stepped(dt);
            Asteroid { b: b2, c: Collider { p: b2.p, ..self.c }, ..self }
        } else {
            self
        }
    }

    /// The asteroid after `explode_asteroid`: a small one dies and its
    /// collider is disabled; a medium or large one is unchanged.
    pub open spec fn exploded(self) -> Asteroid {
        match self.size_class {
            AsteroidSizeClass::Small => Asteroid {
                b: MovableBody { state: BodyState::Dead, ..self.b },
                c: Collider { state: ColliderState::Disabled, ..self.c },
                ..self
            },
            _ => self,
        }
    }

    pub fn new(
        body: MovableBody,
        collider: Collider,
        size_class: AsteroidSizeClass,
        pid: u32,
    ) -> (a: Asteroid)
        ensures
            a == (Asteroid { id: pid, size: ASTEROID_SIZE, size_class, c: collider, b: body }),
    {
        Asteroid { id: pid, b: body, c: collider, size: ASTEROID_SIZE, size_class }
    }

    /// Advance a live asteroid's body by one step and drag the collider
    /// center along; do nothing once dead.
    pub fn update(&mut self, dt: i64)
        requires
            dt >= 0,
            old(self).b.state is Live ==> old(self).b.fits(dt as int),
        ensures
            *final(self) == old(self).stepped(dt as int),
    {
        if self.b.state == BodyState::Live {
            self.b.update(dt);
            self.c.p = self.b.p;
        }
    }

    /// The lifecycle transition triggered when a projectile hits. A small
    /// asteroid dies, its collider is disabled, and there are no children
    /// (`None`). A medium or large asteroid is meant to split into smaller
    /// children; the split is not designed yet, so it stays unchanged and
    /// hands back an empty child list.
    pub fn explode_asteroid(&mut self) -> (children: Option<Vec<Asteroid>>)
        ensures
            *final(self) == old(self).exploded(),
            children is None <==> old(self).size_class is Small,
            children matches Some(v) ==> v@ == Seq::<Asteroid>::empty(),
    {
        match self.size_class {
            AsteroidSizeClass::Small => {
                self.b.state = BodyState::Dead;
                self.c.off();
                None
            },
            AsteroidSizeClass::Medium => Some(Vec::new()),
            AsteroidSizeClass::Large => Some(Vec::new()),
        }
    }
}

impl Collides for Asteroid {
    open spec fn spec_collider(&self) -> Collider {
        self.c
    }

    open spec fn spec_tag(&self) -> ColliderType {
        ColliderType::Asteroid
    }

    fn get_collider(&self) -> (c: &Collider) {
        &self.c
    }

    fn collider_type(&self) -> (t: ColliderType) {
        ColliderType::Asteroid
    }
}

impl Asteroid {
    /// Delegates to the collider test against the other entity's collider.
    pub fn collides_with<C: Collides>(&self, other: &C) -> (r: bool)
        requires
            self.c.wf(),
            other.spec_collider().wf(),
        ensures
            r == self.c.colliding(other.spec_collider()),
    {
        self.c.are_colliding(other.get_collider())
    }

    /// The asteroid's reaction to a collision, keyed on the other entity's
    /// tag. No kind of collision partner provokes a reaction today.
    pub fn on_collision<C: Collides>(&mut self, other: &C)
        ensures
            *final(self) == *old(self),
    {
        let t = other.collider_type();
        match t {
            ColliderType::Asteroid => (),
            _ => (),
        }
    }
}

/// What is known of an asteroid spawned at a random spot: identity `pid`,
/// small, nominal size and radius from the spawn constants, at rest except
/// for a position inside the window and bounded velocity and spin, with the
/// collider centered on the body.
pub open spec fn fresh_random_asteroid(a: Asteroid, pid: u32, window_size: Vec2) -> bool {
    &&& a.id == pid
    &&& a.size == ASTEROID_SIZE
    &&& a.size_class is Small
    &&& a.c == (Collider { state: ColliderState::Enabled, p: a.b.p, r: ASTEROID_RADIUS })
    &&& a.b.window_size == window_size
    &&& 0 <= a.b.p.x < window_size.x
    &&& 0 <= a.b.p.y < window_size.y
    &&& -ASTEROID_SPAWN_SPEED <= a.b.v.x < ASTEROID_SPAWN_SPEED
    &&& -ASTEROID_SPAWN_SPEED <= a.b.v.y < ASTEROID_SPAWN_SPEED
    &&& a.b.a == (Vec2 { x: 0, y: 0 })
    &&& a.b.f == (Vec2 { x: 0, y: 0 })
    &&& a.b.r == 0
    &&& -ASTEROID_SPAWN_SPIN <= a.b.rv < ASTEROID_SPAWN_SPIN
    &&& a.b.boundary_mode is Wrap
    &&& a.b.state is Live
}

/// Relies on rand::random_range on an `i64` range: it yields a value of
/// the half-open range (and panics on an empty one, which the precondition
/// rules out). Nothing more is promised of a random draw.
#[verifier::external_body]
fn random_in_range(lo: i64, hi: i64) -> (r: i64)
    requires
        lo < hi,
    ensures
        lo <= r < hi,
{
    rand::random_range(lo..hi)
}

/// Build one asteroid at a random position inside the window, with random
/// velocity and spin, carrying `pid` as its identity.
fn random_asteroid(window_size: Vec2, pid: u32) -> (a: Asteroid)
    requires
        window_size.x > 0,
        window_size.y > 0,
    ensures
        fresh_random_asteroid(a, pid, window_size),
{
    let p = Vec2 { x: random_in_range(0, window_size.x), y: random_in_range(0, window_size.y) };
    let mut mb = MovableBody::new(p, window_size);
    mb.v = Vec2 {
        x: random_in_range(-ASTEROID_SPAWN_SPEED, ASTEROID_SPAWN_SPEED),
        y: random_in_range(-ASTEROID_SPAWN_SPEED, ASTEROID_SPAWN_SPEED),
    };
    mb.rv = random_in_range(-ASTEROID_SPAWN_SPIN, ASTEROID_SPAWN_SPIN);
    Asteroid::new(mb, Collider::new(p, ASTEROID_RADIUS), AsteroidSizeClass::Small, pid)
}

/// Owns the asteroid collection, the window extents new asteroids are
/// spawned into, and the last process-id snapshot fetched for pid-mapped
/// spawning.
pub struct AsteroidManager {
    pub window_size: Vec2,
    pub asteroids: Vec<Asteroid>,
    pub available_pids: Vec<u32>,
}

impl AsteroidManager {
    /// Seed the manager with `INITIAL_ASTEROID_COUNT` randomly placed small
    /// asteroids (identity 0: they stand for no process).
    pub fn new(window_size: Vec2) -> (m: AsteroidManager)
        requires
            window_size.x > 0,
            window_size.y > 0,
        ensures
            m.window_size == window_size,
            m.available_pids@ == Seq::<u32>::empty(),
            m.asteroids@.len() == INITIAL_ASTEROID_COUNT,
            forall|i: int|
                0 <= i < m.asteroids@.len() ==> fresh_random_asteroid(
                    #[trigger] m.asteroids@[i],
                    0,
                    window_size,
                ),
    {
        let mut asteroids: Vec<Asteroid> = Vec::new();
        let mut i: usize = 0;
        while i < INITIAL_ASTEROID_COUNT
            invariant
                window_size.x > 0,
                window_size.y > 0,
                i <= INITIAL_ASTEROID_COUNT,
                asteroids@.len() == i,
                forall|k: int|
                    0 <= k < i ==> fresh_random_asteroid(
                        #[trigger] asteroids@[k],
                        0,
                        window_size,
                    ),
            decreases INITIAL_ASTEROID_COUNT - i,
        {
            asteroids.push(random_asteroid(window_size, 0));
            i = i + 1;
        }
        AsteroidManager { window_size, asteroids, available_pids: Vec::new() }
    }

    pub fn add_asteroid(&mut self, a: Asteroid)
        ensures
            final(self).window_size == old(self).window_size,
            final(self).available_pids == old(self).available_pids,
            final(self).asteroids@ == old(self).asteroids@.push(a),
    {
        self.asteroids.push(a)
    }

    /// Spawn one randomly placed small asteroid whose identity is `pid`:
    /// the link between a game entity and a real OS process.
    pub fn add_pid_asteroid(&mut self, pid: u32)
        requires
            old(self).window_size.x > 0,
            old(self).window_size.y > 0,
        ensures
            final(self).window_size == old(self).window_size,
            final(self).available_pids == old(self).available_pids,
            final(self).asteroids@.len() == old(self).asteroids@.len() + 1,
            forall|i: int|
                0 <= i < old(self).asteroids@.len() ==> final(self).asteroids@[i] == old(
                    self,
                ).asteroids@[i],
            fresh_random_asteroid(final(self).asteroids@.last(), pid, old(self).window_size),
    {
        let a = random_asteroid(self.window_size, pid);
        self.asteroids.push(a);
    }

    /// Advance every living asteroid by one step. A depleted population is
    /// not respawned: the collection only ever shrinks to dead entries.
    pub fn update(&mut self, dt: i64)
        requires
            dt >= 0,
            forall|i: int|
                0 <= i < old(self).asteroids@.len() && (#[trigger] old(
                    self,
                ).asteroids@[i]).b.state is Live ==> old(self).asteroids@[i].b.fits(dt as int),
        ensures
            final(self).window_size == old(self).window_size,
            final(self).available_pids == old(self).available_pids,
            final(self).asteroids@.len() == old(self).asteroids@.len(),
            forall|i: int|
                0 <= i < old(self).asteroids@.len() ==> final(self).asteroids@[i] == (
                #[trigger] old(self).asteroids@[i]).stepped(dt as int),
    {
        let n = self.asteroids.len();
        let mut i: usize = 0;
        while i < n
            invariant
                dt >= 0,
                n == old(self).asteroids@.len(),
                i <= n,
                self.window_size == old(self).window_size,
                self.available_pids == old(self).available_pids,
                self.asteroids@.len() == n,
                forall|k: int|
                    i <= k < n ==> self.asteroids@[k] == old(self).asteroids@[k],
                forall|k: int|
                    0 <= k < n && (#[trigger] old(self).asteroids@[k]).b.state is Live ==> old(
                        self,
                    ).asteroids@[k].b.fits(dt as int),
                forall|k: int|
                    0 <= k < i ==> self.asteroids@[k] == (#[trigger] old(
                        self,
                    ).asteroids@[k]).stepped(dt as int),
            decreases n - i,
        {
            let mut a = self.asteroids[i];
            a.update(dt);
            self.asteroids[i] = a;
            i = i + 1;
        }
    }

    /// Refresh the snapshot of live process ids from the OS.
    pub fn get_available_pids(&mut self)
        ensures
            final(self).window_size == old(self).window_size,
            final(self).asteroids == old(self).asteroids,
    {
        self.available_pids = crate::procs::get_procs();
    }
}

} // verus!
