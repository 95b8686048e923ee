use vstd::prelude::*;

use crate::angle::{tri_cos, tri_cos_i, tri_sin, tri_sin_i, QUARTER};
use crate::collider::{Collider, ColliderState};
use crate::movable_body::{BodyState, BoundaryModeEnum, MovableBody};
use crate::traits::{Collides, ColliderType};
use crate::vec2::Vec2;

verus! {

/// The collider radius of a projectile.
pub const PROJECTILE_RADIUS: i64 = 5;

/// The speed of a fired projectile along an axis-aligned heading, in
/// pixels per tick.
pub const PROJECTILE_SPEED: i64 = 200;

/// A fired projectile: a collider and a body, no independent identity.
#[derive(Clone, Copy, Debug, PartialEq, Eq, Structural)]
pub struct Projectile {
    pub c: Collider,
    pub b: MovableBody,
}

/// True of a projectile whose body is live.
pub open spec fn is_live(pr: Projectile) -> bool {
    pr.b.state is Live
}

impl Projectile {
    /// The projectile after one `update(dt)`: a live projectile's body
    /// steps and its collider center follows; a dead one is untouched.
    pub open spec fn stepped(self, dt: int) -> Projectile {
        if self.b.state is Live {
            let b2 = self.b.stepped(dt);
            Projectile { b: b2, c: Collider { p: b2.p, ..self.c } }
        } else {
            self
        }
    }

    pub fn new(body: MovableBody, collider: Collider) -> (pr: Projectile)
        ensures
            pr == (Projectile { b: body, c: collider }),
    {
        Projectile { b: body, c: collider }
    }

    /// Advance a live projectile's body by one step and drag the collider
    /// center along; do nothing once dead.
    pub fn update(&mut self, dt: i64)
        requires
            dt >= 0,
            old(self).b.state is Live ==> old(self).b.fits(dt as int),
        ensures
            *final(self) == old(self).stepped(dt as int),
    {
        if self.b.state == BodyState::Dead {
            return ;
        }
        self.b.update(dt);
        self.c.p = self.b.p;
    }

    /// The projectile after `destroy`: its body is dead, everything else
    /// (the collider included) as before.
    pub open spec fn destroyed(self) -> Projectile {
        Projectile { b: MovableBody { state: BodyState::Dead, ..self.b }, ..self }
    }

    /// The one-way transition to Dead. The collider is left as it is: the
    /// dead projectile stays in its collection, excluded from updates, until
    /// the next purge removes it.
    pub fn destroy(&mut self)
        ensures
            *final(self) == old(self).destroyed(),
    {
        self.b.state = BodyState::Dead;
    }
}

impl Collides for Projectile {
    open spec fn spec_collider(&self) -> Collider {
        self.c
    }

    open spec fn spec_tag(&self) -> ColliderType {
        ColliderType::Projectile
    }

    fn get_collider(&self) -> (c: &Collider) {
        &self.c
    }

    fn collider_type(&self) -> (t: ColliderType) {
        ColliderType::Projectile
    }
}

impl Projectile {
    /// Delegates to the collider test against the other entity's collider.
    pub fn collides_with<C: Collides>(&self, other: &C) -> (r: bool)
        requires
            self.c.wf(),
            other.spec_collider().wf(),
        ensures
            r == self.c.colliding(other.spec_collider()),
    {
        self.c.are_colliding(other.get_collider())
    }

    /// The projectile's reaction to a collision, keyed on the other
    /// entity's tag. No kind of collision partner provokes a reaction
    /// today.
    pub fn on_collision<C: Collides>(&mut self, other: &C)
        ensures
            *final(self) == *old(self),
    {
        let t = other.collider_type();
        match t {
            ColliderType::Asteroid => (),
            _ => (),
        }
    }
}

/// The projectile `spawn_projectile(p, r)` appends: at `p`, moving at
/// `PROJECTILE_SPEED` along the heading `r` (the triangular sine and
/// cosine give the direction components), unbounded by the window, live,
/// with an enabled collider of radius `PROJECTILE_RADIUS` at `p`.
pub open spec fn spawned_projectile(p: Vec2, r: int, window_size: Vec2) -> Projectile {
    Projectile {
        b: MovableBody {
            p,
            v: Vec2 {
                x: (PROJECTILE_SPEED * tri_sin(r) / (QUARTER as int)) as i64,
                y: (PROJECTILE_SPEED * tri_cos(r) / (QUARTER as int)) as i64,
            },
            a: Vec2 { x: 0, y: 0 },
            f: Vec2 { x: 0, y: 0 },
            r: 0,
            rv: 0,
            window_size,
            boundary_mode: BoundaryModeEnum::NoWrap,
            state: BodyState::Live,
        },
        c: Collider { state: ColliderState::Enabled, p, r: PROJECTILE_RADIUS },
    }
}

/// Owns the projectile collection and the window extents spawned
/// projectiles carry (though their boundary mode never wraps).
pub struct ProjectileManager {
    pub window_size: Vec2,
    pub projectiles: Vec<Projectile>,
}

/// The projectile collection after a purge: the live projectiles, in
/// their original order.
pub open spec fn purged(s: Seq<Projectile>) -> Seq<Projectile> {
    s.filter(|pr: Projectile| is_live(pr))
}

impl ProjectileManager {
    pub fn new(window_size: Vec2) -> (m: ProjectileManager)
        ensures
            m.window_size == window_size,
            m.projectiles@ == Seq::<Projectile>::empty(),
    {
        ProjectileManager { projectiles: Vec::new(), window_size }
    }

    /// Fire one projectile from `p` along the heading `r`, appending it to
    /// the collection.
    pub fn spawn_projectile(&mut self, p: Vec2, r: i64)
        ensures
            final(self).window_size == old(self).window_size,
            final(self).projectiles@ == old(self).projectiles@.push(
                spawned_projectile(p, r as int, old(self).window_size),
            ),
    {
        let s = tri_sin_i(r);
        let c = tri_cos_i(r);
        let mut b = MovableBody::new(p, self.window_size);
        b.v = Vec2 { x: (PROJECTILE_SPEED * s) / QUARTER, y: (PROJECTILE_SPEED * c) / QUARTER };
        b.boundary_mode = BoundaryModeEnum::NoWrap;

        let pr = Projectile::new(b, Collider::new(p, PROJECTILE_RADIUS));
        self.projectiles.push(pr);
    }

    /// Drop every dead projectile, keeping the live ones in order: a
    /// stable filter of the collection.
    pub fn purge(&mut self)
        ensures
            final(self).window_size == old(self).window_size,
            final(self).projectiles@ == purged(old(self).projectiles@),
    {
        let n = self.projectiles.len();
        let mut kept: Vec<Projectile> = Vec::new();
        let mut i: usize = 0;
        while i < n
            invariant
                n == self.projectiles@.len(),
                self == old(self),
                i <= n,
                kept@ == purged(self.projectiles@.take(i as int)),
            decreases n - i,
        {
            let pr = self.projectiles[i];
            proof {
                reveal(Seq::filter);
                let s = self.projectiles@;
                assert(s.take(i + 1).drop_last() =~= s.take(i as int));
                assert(s.take(i + 1).last() == s[i as int]);
            }
            if pr.b.state == BodyState::Live {
                kept.push(pr);
            }
            i = i + 1;
        }
        proof {
            assert(self.projectiles@.take(n as int) =~= self.projectiles@);
        }
        self.projectiles = kept;
    }
}

/// A purge is idempotent: purging an already purged collection changes
/// nothing, because every survivor of a purge is live.
pub proof fn lemma_purge_idempotent(s: Seq<Projectile>)
    ensures
        purged(purged(s)) == purged(s),
{
    let pred = |pr: Projectile| is_live(pr);
    assert forall|i: int| 0 <= i < purged(s).len() implies (#[trigger] purged(s)[i]).b.state
        is Live by {
        s.lemma_filter_pred(pred, i);
    }
    lemma_filter_of_all_live(purged(s));
}

/// Every survivor of a purge was in the collection before it.
pub proof fn lemma_purged_elements(s: Seq<Projectile>)
    ensures
        forall|i: int| 0 <= i < purged(s).len() ==> s.contains(#[trigger] purged(s)[i]),
    decreases s.len(),
{
    reveal(Seq::filter);
    let pred = |pr: Projectile| is_live(pr);
    if s.len() > 0 {
        lemma_purged_elements(s.drop_last());
        let f = purged(s);
        let fd = purged(s.drop_last());
        assert forall|i: int| 0 <= i < f.len() implies s.contains(f[i]) by {
            if i < fd.len() {
                let k = choose|k: int| 0 <= k < s.drop_last().len() && s.drop_last()[k] == fd[i];
                assert(s[k] == fd[i]);
            } else {
                assert(f[i] == s.last());
                assert(s[s.len() - 1] == s.last());
            }
        }
    }
}

/// Filtering for live projectiles keeps a sequence of live projectiles
/// intact.
proof fn lemma_filter_of_all_live(s: Seq<Projectile>)
    requires
        forall|i: int| 0 <= i < s.len() ==> (#[trigger] s[i]).b.state is Live,
    ensures
        purged(s) == s,
    decreases s.len(),
{
    reveal(Seq::filter);
    let pred = |pr: Projectile| is_live(pr);
    if s.len() == 0 {
        assert(s.filter(pred) =~= s);
    } else {
        lemma_filter_of_all_live(s.drop_last());
        assert(s.filter(pred) =~= s);
    }
}

} // verus!
