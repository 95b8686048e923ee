use asteroids::Asteroid;
use asteroids::AsteroidManager;
use asteroids::AsteroidSizeClass;
use asteroids::BodyState;
use asteroids::BoundaryModeEnum;
use asteroids::Collider;
use asteroids::ColliderState;
use asteroids::ColliderType;
use asteroids::Collides;
use asteroids::MovableBody;
use asteroids::Player;
use asteroids::Projectile;
use asteroids::ProjectileManager;
use asteroids::RotationState;
use asteroids::Vec2;

const WINDOW: Vec2 = Vec2 { x: 800, y: 800 };

fn collider_at(x: i64, y: i64, r: i64) -> Collider {
    Collider::new(Vec2 { x, y }, r)
}

fn small_asteroid_at(x: i64, y: i64) -> Asteroid {
    let b = MovableBody::new(Vec2 { x, y }, WINDOW);
    Asteroid::new(b, collider_at(x, y, 25), AsteroidSizeClass::Small, 0)
}

#[test]
fn touching_centers_collide() {
    let a = collider_at(100, 100, 25);
    let b = collider_at(100, 100, 5);
    assert!(a.are_colliding(&b));
}

#[test]
fn collision_uses_the_larger_radius_not_the_sum() {
    // centers 30 apart; radii 25 and 5: within the sum of the radii, but
    // outside the larger one alone, so no collision
    let a = collider_at(100, 100, 25);
    let b = collider_at(130, 100, 5);
    assert!(!a.are_colliding(&b));
    // at 25 apart the larger circle reaches the other center exactly
    let c = collider_at(125, 100, 5);
    assert!(a.are_colliding(&c));
}

#[test]
fn disabled_collider_never_collides_even_at_distance_zero() {
    let mut a = collider_at(100, 100, 25);
    let b = collider_at(100, 100, 25);
    a.off();
    assert!(!a.are_colliding(&b));
    assert!(!b.are_colliding(&a));
    let mut c = collider_at(100, 100, 25);
    c.off();
    assert!(!a.are_colliding(&c));
}

#[test]
fn collider_toggle_round_trip() {
    let mut a = collider_at(0, 0, 10);
    assert_eq!(a.state, ColliderState::Enabled);
    a.off();
    assert_eq!(a.state, ColliderState::Disabled);
    a.on();
    assert_eq!(a.state, ColliderState::Enabled);
    assert!(a.are_colliding(&collider_at(5, 5, 10)));
}

#[test]
fn collision_is_symmetric() {
    let cases = [
        (collider_at(0, 0, 10), collider_at(7, 7, 3)),
        (collider_at(0, 0, 10), collider_at(70, 7, 3)),
        (collider_at(-5, 2, 8), collider_at(1, -1, 12)),
    ];
    for (a, b) in cases.iter() {
        assert_eq!(a.are_colliding(b), b.are_colliding(a));
    }
}

#[test]
fn small_asteroid_explodes_to_dead_and_disabled_with_no_children() {
    let mut a = small_asteroid_at(100, 100);
    let children = a.explode_asteroid();
    assert!(children.is_none());
    assert_eq!(a.b.state, BodyState::Dead);
    assert_eq!(a.c.state, ColliderState::Disabled);
}

#[test]
fn medium_asteroid_explosion_is_an_empty_split_for_now() {
    let b = MovableBody::new(Vec2 { x: 50, y: 60 }, WINDOW);
    let mut a = Asteroid::new(b, collider_at(50, 60, 25), AsteroidSizeClass::Medium, 7);
    let before = a;
    let children = a.explode_asteroid();
    assert_eq!(children.expect("a split hands back a list").len(), 0);
    assert_eq!(a, before);
}

#[test]
fn dead_asteroid_is_excluded_from_update() {
    let mut a = small_asteroid_at(100, 100);
    a.b.v = Vec2 { x: 10, y: 0 };
    a.explode_asteroid();
    let before = a;
    a.update(5);
    assert_eq!(a, before);
}

#[test]
fn live_asteroid_update_moves_body_and_collider_together() {
    let mut a = small_asteroid_at(100, 100);
    a.b.v = Vec2 { x: 10, y: -5 };
    a.update(2);
    assert_eq!(a.b.p, Vec2 { x: 120, y: 90 });
    assert_eq!(a.c.p, a.b.p);
}

#[test]
fn entity_tags_drive_dispatch() {
    let a = small_asteroid_at(0, 0);
    let pm_body = MovableBody::new(Vec2 { x: 0, y: 0 }, WINDOW);
    let pr = Projectile::new(pm_body, collider_at(0, 0, 5));
    let pl = Player::new(pm_body, collider_at(0, 0, 10));
    assert_eq!(a.collider_type(), ColliderType::Asteroid);
    assert_eq!(pr.collider_type(), ColliderType::Projectile);
    assert_eq!(pl.collider_type(), ColliderType::Player);
    assert_eq!(a.get_collider(), &a.c);
}

#[test]
fn collides_with_delegates_to_the_colliders() {
    let a = small_asteroid_at(100, 100);
    let b = MovableBody::new(Vec2 { x: 110, y: 100 }, WINDOW);
    let pr = Projectile::new(b, collider_at(110, 100, 5));
    assert!(a.collides_with(&pr));
    assert!(pr.collides_with(&a));
}

#[test]
fn spawned_projectile_heads_along_the_heading() {
    let mut pm = ProjectileManager::new(WINDOW);
    pm.spawn_projectile(Vec2 { x: 400, y: 400 }, 0);
    pm.spawn_projectile(Vec2 { x: 400, y: 400 }, 100);
    pm.spawn_projectile(Vec2 { x: 400, y: 400 }, 200);
    pm.spawn_projectile(Vec2 { x: 400, y: 400 }, 300);
    pm.spawn_projectile(Vec2 { x: 400, y: 400 }, 150);
    let v: Vec<Vec2> = pm.projectiles.iter().map(|p| p.b.v).collect();
    // heading 0 points along +y, a quarter turn along +x, and the
    // triangular wave interpolates linearly in between
    assert_eq!(v[0], Vec2 { x: 0, y: 200 });
    assert_eq!(v[1], Vec2 { x: 200, y: 0 });
    assert_eq!(v[2], Vec2 { x: 0, y: -200 });
    assert_eq!(v[3], Vec2 { x: -200, y: 0 });
    assert_eq!(v[4], Vec2 { x: 100, y: -100 });
}

#[test]
fn spawned_projectile_is_live_unbounded_and_small() {
    let mut pm = ProjectileManager::new(WINDOW);
    pm.spawn_projectile(Vec2 { x: 10, y: 20 }, 42);
    assert_eq!(pm.projectiles.len(), 1);
    let pr = &pm.projectiles[0];
    assert_eq!(pr.b.p, Vec2 { x: 10, y: 20 });
    assert_eq!(pr.b.state, BodyState::Live);
    assert_eq!(pr.b.boundary_mode, BoundaryModeEnum::NoWrap);
    assert_eq!(pr.c.p, Vec2 { x: 10, y: 20 });
    assert_eq!(pr.c.r, 5);
    assert_eq!(pr.c.state, ColliderState::Enabled);
}

#[test]
fn destroyed_projectile_keeps_its_collider_enabled_until_purge() {
    let b = MovableBody::new(Vec2 { x: 0, y: 0 }, WINDOW);
    let mut pr = Projectile::new(b, collider_at(0, 0, 5));
    pr.destroy();
    assert_eq!(pr.b.state, BodyState::Dead);
    assert_eq!(pr.c.state, ColliderState::Enabled);
    let before = pr;
    pr.update(10);
    assert_eq!(pr, before);
}

#[test]
fn purge_keeps_live_projectiles_in_order_and_is_idempotent() {
    let mut pm = ProjectileManager::new(WINDOW);
    pm.spawn_projectile(Vec2 { x: 1, y: 1 }, 0);
    pm.spawn_projectile(Vec2 { x: 2, y: 2 }, 0);
    pm.spawn_projectile(Vec2 { x: 3, y: 3 }, 0);
    pm.projectiles[1].destroy();
    pm.purge();
    let survivors: Vec<Vec2> = pm.projectiles.iter().map(|p| p.b.p).collect();
    assert_eq!(survivors, vec![Vec2 { x: 1, y: 1 }, Vec2 { x: 3, y: 3 }]);
    let after_once = pm.projectiles.clone();
    pm.purge();
    assert_eq!(pm.projectiles, after_once);
}

#[test]
fn player_update_folds_intents_into_the_body() {
    let b = MovableBody::new(Vec2 { x: 400, y: 400 }, WINDOW);
    let mut p = Player::new(b, collider_at(400, 400, 10));
    p.set_rotation(RotationState::Positive);
    p.update(1);
    assert_eq!(p.b.rv, 153);
    assert_eq!(p.b.r, 153);
    p.set_rotation(RotationState::Negative);
    p.update(1);
    assert_eq!(p.b.rv, -153);
    assert_eq!(p.b.r, 0);
    p.set_rotation(RotationState::Neutral);
    p.update(1);
    assert_eq!(p.b.rv, 0);
    assert_eq!(p.b.r, 0);
}

#[test]
fn player_thrust_force_points_along_the_heading_with_one_step_lag() {
    let b = MovableBody::new(Vec2 { x: 400, y: 400 }, WINDOW);
    let mut p = Player::new(b, collider_at(400, 400, 10));
    p.set_thrust(true);
    p.update(1);
    // heading 0: the full thrust force along +y, advanced into the
    // acceleration on the first step
    assert_eq!(p.b.f, Vec2 { x: 0, y: 100 });
    assert_eq!(p.b.a, Vec2 { x: 0, y: 100 });
    assert_eq!(p.b.v, Vec2 { x: 0, y: 0 });
    p.update(1);
    assert_eq!(p.b.v, Vec2 { x: 0, y: 100 });
    p.set_thrust(false);
    p.update(1);
    assert_eq!(p.b.f, Vec2 { x: 0, y: 0 });
    // the collider center follows the body
    assert_eq!(p.c.p, p.b.p);
}

#[test]
fn shoot_projectile_fires_from_the_player() {
    let b = MovableBody::new(Vec2 { x: 321, y: 123 }, WINDOW);
    let p = Player::new(b, collider_at(321, 123, 10));
    let mut pm = ProjectileManager::new(WINDOW);
    p.shoot_projectile(&mut pm);
    assert_eq!(pm.projectiles.len(), 1);
    assert_eq!(pm.projectiles[0].b.p, Vec2 { x: 321, y: 123 });
}

#[test]
fn asteroid_manager_seeds_nine_small_live_asteroids_inside_the_window() {
    let m = AsteroidManager::new(WINDOW);
    assert_eq!(m.asteroids.len(), 9);
    for a in m.asteroids.iter() {
        assert_eq!(a.id, 0);
        assert_eq!(a.size_class, AsteroidSizeClass::Small);
        assert_eq!(a.b.state, BodyState::Live);
        assert_eq!(a.c.state, ColliderState::Enabled);
        assert_eq!(a.c.r, 25);
        assert_eq!(a.c.p, a.b.p);
        assert!(0 <= a.b.p.x && a.b.p.x < 800);
        assert!(0 <= a.b.p.y && a.b.p.y < 800);
        assert!(-100 <= a.b.v.x && a.b.v.x < 100);
        assert!(-100 <= a.b.v.y && a.b.v.y < 100);
        assert!(-10 <= a.b.rv && a.b.rv < 10);
    }
}

#[test]
fn add_pid_asteroid_links_the_identity_to_the_pid() {
    let mut m = AsteroidManager::new(WINDOW);
    m.add_pid_asteroid(4242);
    assert_eq!(m.asteroids.len(), 10);
    let a = m.asteroids.last().expect("just pushed");
    assert_eq!(a.id, 4242);
    assert_eq!(a.size_class, AsteroidSizeClass::Small);
    assert!(0 <= a.b.p.x && a.b.p.x < 800);
    assert!(0 <= a.b.p.y && a.b.p.y < 800);
}

#[test]
fn add_asteroid_appends_the_given_asteroid() {
    let mut m = AsteroidManager::new(WINDOW);
    let a = small_asteroid_at(1, 2);
    m.add_asteroid(a);
    assert_eq!(m.asteroids.len(), 10);
    assert_eq!(*m.asteroids.last().expect("just pushed"), a);
}

#[test]
fn asteroid_manager_update_advances_only_the_living() {
    let mut m = AsteroidManager {
        window_size: WINDOW,
        asteroids: Vec::new(),
        available_pids: Vec::new(),
    };
    let mut live = small_asteroid_at(10, 10);
    live.b.v = Vec2 { x: 5, y: 0 };
    let mut dead = small_asteroid_at(20, 20);
    dead.b.v = Vec2 { x: 5, y: 0 };
    dead.explode_asteroid();
    m.add_asteroid(live);
    m.add_asteroid(dead);
    m.update(2);
    assert_eq!(m.asteroids[0].b.p, Vec2 { x: 20, y: 10 });
    assert_eq!(m.asteroids[1].b.p, Vec2 { x: 20, y: 20 });
}
