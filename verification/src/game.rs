use vstd::prelude::*;

use crate::asteroid::{Asteroid, AsteroidManager};
use crate::movable_body::BodyState;
use crate::player::{player_stepped, prepared_body, Player};
use crate::procs::ProcManager;
use crate::projectile::{is_live, lemma_purged_elements, purged, Projectile, ProjectileManager};

verus! {

/// A projectile hits an asteroid when both are live and their colliders
/// overlap (a disabled collider, e.g. of an already exploded asteroid,
/// overlaps nothing).
pub open spec fn hit(pr: Projectile, a: Asteroid) -> bool {
    &&& pr.b.state is Live
    &&& a.b.state is Live
    &&& a.c.colliding(pr.c)
}

/// The outcome of testing one (projectile, asteroid) pair: on a hit the
/// asteroid explodes and the projectile is destroyed, otherwise both are
/// untouched.
pub open spec fn sweep_pair(pr: Projectile, a: Asteroid) -> (Projectile, Asteroid) {
    if hit(pr, a) {
        (pr.destroyed(), a.exploded())
    } else {
        (pr, a)
    }
}

/// One projectile swept against the asteroids from index `i` on, in
/// order, each pair tested once against the then-current states.
pub open spec fn sweep_row(pr: Projectile, asts: Seq<Asteroid>, i: int) -> (
    Projectile,
    Seq<Asteroid>,
)
    decreases asts.len() - i,
{
    if i < 0 || i >= asts.len() {
        (pr, asts)
    } else {
        let res = sweep_pair(pr, asts[i]);
        sweep_row(res.0, asts.update(i, res.1), i + 1)
    }
}

/// The whole pairwise sweep: the projectiles from index `j` on, each
/// swept in turn against the current asteroids.
pub open spec fn sweep_all(prs: Seq<Projectile>, asts: Seq<Asteroid>, j: int) -> (
    Seq<Projectile>,
    Seq<Asteroid>,
)
    decreases prs.len() - j,
{
    if j < 0 || j >= prs.len() {
        (prs, asts)
    } else {
        let row = sweep_row(prs[j], asts, 0);
        sweep_all(prs.update(j, row.0), row.1, j + 1)
    }
}

/// The per-frame brute-force collision pass: every (projectile, asteroid)
/// pair of the current live sets is tested exactly once, in order; a hit
/// explodes the asteroid and destroys the projectile in place. Children of
/// a split are staged during the sweep and appended only after it — and
/// today a split hands back no children, so the asteroid count is
/// unchanged.
pub fn collision_sweep(pm: &mut ProjectileManager, am: &mut AsteroidManager)
    requires
        forall|k: int|
            0 <= k < old(pm).projectiles@.len() ==> (#[trigger] old(pm).projectiles@[k]).c.wf(),
        forall|k: int|
            0 <= k < old(am).asteroids@.len() ==> (#[trigger] old(am).asteroids@[k]).c.wf(),
    ensures
        final(pm).window_size == old(pm).window_size,
        final(am).window_size == old(am).window_size,
        final(am).available_pids == old(am).available_pids,
        final(pm).projectiles@ == sweep_all(old(pm).projectiles@, old(am).asteroids@, 0).0,
        final(am).asteroids@ == sweep_all(old(pm).projectiles@, old(am).asteroids@, 0).1,
{
    let np = pm.projectiles.len();
    let mut staged: Vec<Asteroid> = Vec::new();
    let mut j: usize = 0;
    while j < np
        invariant
            np == pm.projectiles@.len(),
            am.asteroids@.len() == old(am).asteroids@.len(),
            j <= np,
            pm.window_size == old(pm).window_size,
            am.window_size == old(am).window_size,
            am.available_pids == old(am).available_pids,
            staged@ == Seq::<Asteroid>::empty(),
            forall|k: int| 0 <= k < np ==> (#[trigger] pm.projectiles@[k]).c.wf(),
            forall|k: int|
                0 <= k < am.asteroids@.len() ==> (#[trigger] am.asteroids@[k]).c.wf(),
            sweep_all(old(pm).projectiles@, old(am).asteroids@, 0) == sweep_all(
                pm.projectiles@,
                am.asteroids@,
                j as int,
            ),
        decreases np - j,
    {
        let ghost prs0 = pm.projectiles@;
        let ghost asts0 = am.asteroids@;
        let na = am.asteroids.len();
        let mut i: usize = 0;
        while i < na
            invariant
                np == pm.projectiles@.len(),
                na == am.asteroids@.len(),
                na == asts0.len(),
                j < np,
                i <= na,
                pm.window_size == old(pm).window_size,
                am.window_size == old(am).window_size,
                am.available_pids == old(am).available_pids,
                staged@ == Seq::<Asteroid>::empty(),
                forall|k: int| 0 <= k < np ==> (#[trigger] pm.projectiles@[k]).c.wf(),
                forall|k: int|
                    0 <= k < am.asteroids@.len() ==> (#[trigger] am.asteroids@[k]).c.wf(),
                forall|k: int| 0 <= k < np && k != j ==> pm.projectiles@[k] == prs0[k],
                sweep_row(prs0[j as int], asts0, 0) == sweep_row(
                    pm.projectiles@[j as int],
                    am.asteroids@,
                    i as int,
                ),
            decreases na - i,
        {
            let ghost p_before = pm.projectiles@[j as int];
            let ghost a_before = am.asteroids@;
            let pr = pm.projectiles[j];
            let does_hit = pr.b.state == BodyState::Live && am.asteroids[i].b.state
                == BodyState::Live && am.asteroids[i].collides_with(&pr);
            if does_hit {
                let mut a = am.asteroids[i];
                let children = a.explode_asteroid();
                am.asteroids[i] = a;
                let mut p2 = pm.projectiles[j];
                p2.destroy();
                pm.projectiles[j] = p2;
                if let Some(mut cs) = children {
                    staged.append(&mut cs);
                }
            }
            proof {
                assert(hit(p_before, a_before[i as int]) == does_hit);
                let res = sweep_pair(p_before, a_before[i as int]);
                assert(pm.projectiles@[j as int] == res.0);
                assert(am.asteroids@ =~= a_before.update(i as int, res.1));
                assert(sweep_row(p_before, a_before, i as int) == sweep_row(
                    res.0,
                    a_before.update(i as int, res.1),
                    i + 1,
                ));
            }
            i = i + 1;
        }
        proof {
            let row = sweep_row(prs0[j as int], asts0, 0);
            assert(row == (pm.projectiles@[j as int], am.asteroids@));
            assert(prs0.update(j as int, row.0) =~= pm.projectiles@);
            assert(sweep_all(prs0, asts0, j as int) == sweep_all(
                pm.projectiles@,
                am.asteroids@,
                j + 1,
            ));
        }
        j = j + 1;
    }
    am.asteroids.append(&mut staged);
    proof {
        assert(am.asteroids@ =~= sweep_all(old(pm).projectiles@, old(am).asteroids@, 0).1);
    }
}

/// A sweep changes only life states and collider toggles: the lengths of
/// both collections, every collider radius, and every position survive a
/// row unchanged.
pub proof fn lemma_sweep_row_shape(pr: Projectile, asts: Seq<Asteroid>, i: int)
    ensures
        sweep_row(pr, asts, i).0.c.r == pr.c.r,
        sweep_row(pr, asts, i).1.len() == asts.len(),
        forall|k: int|
            0 <= k < asts.len() ==> (#[trigger] sweep_row(pr, asts, i).1[k]).c.r == asts[k].c.r,
    decreases asts.len() - i,
{
    if 0 <= i < asts.len() {
        let res = sweep_pair(pr, asts[i]);
        lemma_sweep_row_shape(res.0, asts.update(i, res.1), i + 1);
    }
}

/// The whole sweep keeps both collection lengths and every collider
/// radius.
pub proof fn lemma_sweep_all_shape(prs: Seq<Projectile>, asts: Seq<Asteroid>, j: int)
    ensures
        sweep_all(prs, asts, j).0.len() == prs.len(),
        forall|k: int|
            0 <= k < prs.len() ==> (#[trigger] sweep_all(prs, asts, j).0[k]).c.r == prs[k].c.r,
        sweep_all(prs, asts, j).1.len() == asts.len(),
        forall|k: int|
            0 <= k < asts.len() ==> (#[trigger] sweep_all(prs, asts, j).1[k]).c.r == asts[k].c.r,
    decreases prs.len() - j,
{
    if 0 <= j < prs.len() {
        let row = sweep_row(prs[j], asts, 0);
        lemma_sweep_row_shape(prs[j], asts, 0);
        lemma_sweep_all_shape(prs.update(j, row.0), row.1, j + 1);
    }
}

/// The whole game simulation state of one process: the player, the two
/// entity managers, and the process-monitor endpoint.
pub struct GameState {
    pub player: Player,
    pub asteroid_manager: AsteroidManager,
    pub projectile_manager: ProjectileManager,
    pub proc_manager: ProcManager,
}

impl GameState {
    /// Every collider in the two swept collections has a well-formed
    /// (nonnegative) radius.
    pub open spec fn wf(self) -> bool {
        &&& forall|i: int|
            0 <= i < self.projectile_manager.projectiles@.len() ==> (#[trigger] self
                .projectile_manager
                .projectiles@[i]).c.wf()
        &&& forall|i: int|
            0 <= i < self.asteroid_manager.asteroids@.len() ==> (#[trigger] self
                .asteroid_manager
                .asteroids@[i]).c.wf()
    }

    /// Every arithmetic step of one frame fits the machine: the player's
    /// prepared body and every live projectile and asteroid.
    pub open spec fn frame_fits(self, dt: int) -> bool {
        &&& prepared_body(self.player).fits(dt)
        &&& forall|i: int|
            0 <= i < self.projectile_manager.projectiles@.len() && (#[trigger] self
                .projectile_manager
                .projectiles@[i]).b.state is Live ==> self.projectile_manager.projectiles@[i].b.fits(
                dt,
            )
        &&& forall|i: int|
            0 <= i < self.asteroid_manager.asteroids@.len() && (#[trigger] self
                .asteroid_manager
                .asteroids@[i]).b.state is Live ==> self.asteroid_manager.asteroids@[i].b.fits(dt)
    }

    /// The projectiles entering the sweep: the purge survivors, each
    /// advanced one step.
    pub open spec fn frame_projectiles(self, dt: int) -> Seq<Projectile> {
        purged(self.projectile_manager.projectiles@).map_values(
            |pr: Projectile| pr.stepped(dt),
        )
    }

    /// The asteroids entering the sweep: every living asteroid advanced
    /// one step.
    pub open spec fn frame_asteroids(self, dt: int) -> Seq<Asteroid> {
        self.asteroid_manager.asteroids@.map_values(|a: Asteroid| a.stepped(dt))
    }

    /// Both collections after the frame's collision pass.
    pub open spec fn frame_swept(self, dt: int) -> (Seq<Projectile>, Seq<Asteroid>) {
        sweep_all(self.frame_projectiles(dt), self.frame_asteroids(dt), 0)
    }

    /// One simulation frame, in the fixed order: purge dead projectiles,
    /// step the player, step the projectiles, step the asteroids, sweep
    /// for collisions, poll the process snapshot. When some entity's step
    /// would overflow the machine (`frame_fits` fails), nothing happens
    /// and the frame reports `false`.
    pub fn update(&mut self, dt: i64) -> (ok: bool)
        requires
            dt >= 0,
            old(self).wf(),
        ensures
            ok == old(self).frame_fits(dt as int),
            !ok ==> *final(self) == *old(self),
            ok ==> final(self).player == player_stepped(old(self).player, dt as int),
            ok ==> final(self).projectile_manager.projectiles@ == old(self).frame_swept(
                dt as int,
            ).0,
            ok ==> final(self).asteroid_manager.asteroids@ == old(self).frame_swept(dt as int).1,
            final(self).projectile_manager.window_size == old(
                self,
            ).projectile_manager.window_size,
            final(self).asteroid_manager.window_size == old(self).asteroid_manager.window_size,
            final(self).asteroid_manager.available_pids == old(
                self,
            ).asteroid_manager.available_pids,
            final(self).proc_manager.proc_rx == old(self).proc_manager.proc_rx,
            final(self).proc_manager.kill_tx == old(self).proc_manager.kill_tx,
            final(self).wf(),
    {
        let fits = self.player.check_fits(dt) && all_live_projectiles_fit(
            &self.projectile_manager.projectiles,
            dt,
        ) && all_live_asteroids_fit(&self.asteroid_manager.asteroids, dt);
        if !fits {
            return false;
        }

        self.projectile_manager.purge();
        proof {
            lemma_purged_elements(old(self).projectile_manager.projectiles@);
            assert forall|i: int|
                0 <= i < self.projectile_manager.projectiles@.len() implies {
                &&& (#[trigger] self.projectile_manager.projectiles@[i]).b.state is Live
                &&& self.projectile_manager.projectiles@[i].b.fits(dt as int)
                &&& self.projectile_manager.projectiles@[i].c.wf()
            } by {
                let s = old(self).projectile_manager.projectiles@;
                s.lemma_filter_pred(|pr: Projectile| is_live(pr), i);
                let x = self.projectile_manager.projectiles@[i];
                let k = choose|k: int| 0 <= k < s.len() && s[k] == x;
                assert(s[k].b.fits(dt as int));
                assert(s[k].c.wf());
            }
        }

        self.player.update(dt);

        // step the purge survivors
        let ghost mid = *self;
        let n = self.projectile_manager.projectiles.len();
        let mut i: usize = 0;
        while i < n
            invariant
                dt >= 0,
                n == self.projectile_manager.projectiles@.len(),
                n == mid.projectile_manager.projectiles@.len(),
                i <= n,
                self.player == mid.player,
                self.asteroid_manager == mid.asteroid_manager,
                self.proc_manager == mid.proc_manager,
                self.projectile_manager.window_size == mid.projectile_manager.window_size,
                forall|k: int|
                    i <= k < n ==> self.projectile_manager.projectiles@[k]
                        == mid.projectile_manager.projectiles@[k],
                forall|k: int|
                    0 <= k < n ==> (#[trigger] mid.projectile_manager.projectiles@[k]).b.state
                        is Live && mid.projectile_manager.projectiles@[k].b.fits(dt as int)
                        && mid.projectile_manager.projectiles@[k].c.wf(),
                forall|k: int|
                    0 <= k < i ==> self.projectile_manager.projectiles@[k] == (
                    #[trigger] mid.projectile_manager.projectiles@[k]).stepped(dt as int),
            decreases n - i,
        {
            let mut pr = self.projectile_manager.projectiles[i];
            proof {
                assert(pr == mid.projectile_manager.projectiles@[i as int]);
            }
            pr.update(dt);
            self.projectile_manager.projectiles[i] = pr;
            i = i + 1;
        }

        self.asteroid_manager.update(dt);

        proof {
            assert(self.projectile_manager.projectiles@ =~= old(self).frame_projectiles(
                dt as int,
            ));
            assert(self.asteroid_manager.asteroids@ =~= old(self).frame_asteroids(dt as int));
        }

        collision_sweep(&mut self.projectile_manager, &mut self.asteroid_manager);

        proof {
            lemma_sweep_all_shape(
                old(self).frame_projectiles(dt as int),
                old(self).frame_asteroids(dt as int),
                0,
            );
        }

        self.proc_manager.poll_pids();
        true
    }
}

/// Whether every live projectile's coming step fits the machine.
fn all_live_projectiles_fit(prs: &Vec<Projectile>, dt: i64) -> (ok: bool)
    ensures
        ok == (forall|i: int|
            0 <= i < prs@.len() && (#[trigger] prs@[i]).b.state is Live ==> prs@[i].b.fits(
                dt as int,
            )),
{
    let n = prs.len();
    let mut i: usize = 0;
    while i < n
        invariant
            n == prs@.len(),
            i <= n,
            forall|k: int|
                0 <= k < i && (#[trigger] prs@[k]).b.state is Live ==> prs@[k].b.fits(dt as int),
        decreases n - i,
    {
        let pr = prs[i];
        if pr.b.state == BodyState::Live && !pr.b.check_fits(dt) {
            return false;
        }
        i = i + 1;
    }
    true
}

/// Whether every live asteroid's coming step fits the machine.
fn all_live_asteroids_fit(asts: &Vec<Asteroid>, dt: i64) -> (ok: bool)
    ensures
        ok == (forall|i: int|
            0 <= i < asts@.len() && (#[trigger] asts@[i]).b.state is Live ==> asts@[i].b.fits(
                dt as int,
            )),
{
    let n = asts.len();
    let mut i: usize = 0;
    while i < n
        invariant
            n == asts@.len(),
            i <= n,
            forall|k: int|
                0 <= k < i && (#[trigger] asts@[k]).b.state is Live ==> asts@[k].b.fits(dt as int),
        decreases n - i,
    {
        let a = asts[i];
        if a.b.state == BodyState::Live && !a.b.check_fits(dt) {
            return false;
        }
        i = i + 1;
    }
    true
}

} // verus!
