use std::sync::mpsc;

use asteroids::collision_sweep;
use asteroids::get_procs;
use asteroids::Asteroid;
use asteroids::AsteroidManager;
use asteroids::AsteroidSizeClass;
use asteroids::BodyState;
use asteroids::Collider;
use asteroids::ColliderState;
use asteroids::GameState;
use asteroids::MovableBody;
use asteroids::Player;
use asteroids::ProcManager;
use asteroids::ProjectileManager;
use asteroids::Vec2;

const WINDOW: Vec2 = Vec2 { x: 800, y: 800 };

fn empty_asteroid_manager() -> AsteroidManager {
    AsteroidManager { window_size: WINDOW, asteroids: Vec::new(), available_pids: Vec::new() }
}

fn small_asteroid_at(x: i64, y: i64) -> Asteroid {
    let b = MovableBody::new(Vec2 { x, y }, WINDOW);
    Asteroid::new(b, Collider::new(Vec2 { x, y }, 25), AsteroidSizeClass::Small, 0)
}

fn proc_manager_with_channels() -> (ProcManager, mpsc::Sender<Vec<u32>>, mpsc::Receiver<u32>) {
    let (snapshot_tx, snapshot_rx) = mpsc::channel();
    let (kill_tx, kill_rx) = mpsc::channel();
    (ProcManager::new(snapshot_rx, kill_tx), snapshot_tx, kill_rx)
}

#[test]
fn hit_small_asteroid_dies_and_projectile_dies_and_purge_removes_it() {
    let mut am = empty_asteroid_manager();
    am.add_asteroid(small_asteroid_at(100, 100));
    let mut pm = ProjectileManager::new(WINDOW);
    pm.spawn_projectile(Vec2 { x: 100, y: 100 }, 0);

    collision_sweep(&mut pm, &mut am);

    assert_eq!(am.asteroids[0].b.state, BodyState::Dead);
    assert_eq!(am.asteroids[0].c.state, ColliderState::Disabled);
    assert_eq!(pm.projectiles[0].b.state, BodyState::Dead);

    pm.purge();
    assert!(pm.projectiles.is_empty());
    // no purge exists for asteroids: the dead one stays in the collection
    assert_eq!(am.asteroids.len(), 1);

    // the dead asteroid takes part in no further collision test
    pm.spawn_projectile(Vec2 { x: 100, y: 100 }, 0);
    collision_sweep(&mut pm, &mut am);
    assert_eq!(pm.projectiles[0].b.state, BodyState::Live);
}

#[test]
fn sweep_misses_distant_pairs() {
    let mut am = empty_asteroid_manager();
    am.add_asteroid(small_asteroid_at(100, 100));
    let mut pm = ProjectileManager::new(WINDOW);
    pm.spawn_projectile(Vec2 { x: 500, y: 500 }, 0);

    collision_sweep(&mut pm, &mut am);

    assert_eq!(am.asteroids[0].b.state, BodyState::Live);
    assert_eq!(pm.projectiles[0].b.state, BodyState::Live);
}

#[test]
fn an_exploded_asteroid_absorbs_no_second_projectile() {
    let mut am = empty_asteroid_manager();
    am.add_asteroid(small_asteroid_at(100, 100));
    am.add_asteroid(small_asteroid_at(104, 100));
    let mut pm = ProjectileManager::new(WINDOW);
    pm.spawn_projectile(Vec2 { x: 100, y: 100 }, 0);
    pm.spawn_projectile(Vec2 { x: 102, y: 100 }, 0);

    collision_sweep(&mut pm, &mut am);

    // the first projectile explodes the first asteroid and dies with it;
    // the second projectile cannot hit the now-disabled first asteroid,
    // so it explodes the second one
    assert_eq!(am.asteroids[0].b.state, BodyState::Dead);
    assert_eq!(am.asteroids[1].b.state, BodyState::Dead);
    assert_eq!(pm.projectiles[0].b.state, BodyState::Dead);
    assert_eq!(pm.projectiles[1].b.state, BodyState::Dead);
}

#[test]
fn snapshot_cache_follows_one_sent_snapshot_and_stays_put_when_idle() {
    let (mut procm, snapshot_tx, _kill_rx) = proc_manager_with_channels();
    snapshot_tx.send(vec![11, 22, 33]).expect("receiver is alive");
    procm.poll_pids();
    assert_eq!(procm.procs, vec![11, 22, 33]);
    // no pending message: the cache is left exactly as it was
    procm.poll_pids();
    assert_eq!(procm.procs, vec![11, 22, 33]);
}

#[test]
fn apply_snapshot_replaces_on_a_message_and_keeps_the_cache_on_none() {
    let (mut procm, _snapshot_tx, _kill_rx) = proc_manager_with_channels();
    procm.apply_snapshot(Some(vec![5, 6]));
    assert_eq!(procm.procs, vec![5, 6]);
    procm.apply_snapshot(None);
    assert_eq!(procm.procs, vec![5, 6]);
    procm.apply_snapshot(Some(vec![7]));
    assert_eq!(procm.procs, vec![7]);
}

#[test]
fn kill_pid_queues_the_request() {
    let (mut procm, _snapshot_tx, kill_rx) = proc_manager_with_channels();
    procm.kill_pid(424242);
    assert_eq!(kill_rx.try_recv(), Ok(424242));
}

#[test]
fn kill_pid_absorbs_a_gone_executor() {
    let (mut procm, _snapshot_tx, kill_rx) = proc_manager_with_channels();
    drop(kill_rx);
    // best effort: no panic, no visible change
    procm.kill_pid(1);
}

#[test]
fn get_procs_reports_the_running_processes() {
    let pids = get_procs();
    // this very process is alive, so a successful query lists at least one
    // id; a failed query degrades to the empty list
    assert!(pids.is_empty() || pids.len() >= 1);
}

#[test]
fn one_frame_moves_the_world_and_reports_ok() {
    let player_body = MovableBody::new(Vec2 { x: 400, y: 400 }, WINDOW);
    let player = Player::new(player_body, Collider::new(Vec2 { x: 400, y: 400 }, 10));
    let mut am = empty_asteroid_manager();
    let mut a = small_asteroid_at(100, 100);
    a.b.v = Vec2 { x: 7, y: 0 };
    am.add_asteroid(a);
    let mut pm = ProjectileManager::new(WINDOW);
    pm.spawn_projectile(Vec2 { x: 600, y: 600 }, 0);
    let (procm, _snapshot_tx, _kill_rx) = proc_manager_with_channels();

    let mut game = GameState {
        player,
        asteroid_manager: am,
        projectile_manager: pm,
        proc_manager: procm,
    };

    assert!(game.update(1));
    assert_eq!(game.asteroid_manager.asteroids[0].b.p, Vec2 { x: 107, y: 100 });
    // the projectile moves at full speed along its heading (+y)
    assert_eq!(game.projectile_manager.projectiles[0].b.p, Vec2 { x: 600, y: 800 });
    assert_eq!(game.player.b.p, Vec2 { x: 400, y: 400 });
}

#[test]
fn a_frame_that_would_overflow_reports_false_and_changes_nothing() {
    let player_body = MovableBody::new(Vec2 { x: 400, y: 400 }, WINDOW);
    let player = Player::new(player_body, Collider::new(Vec2 { x: 400, y: 400 }, 10));
    let mut am = empty_asteroid_manager();
    let mut a = small_asteroid_at(100, 100);
    a.b.v = Vec2 { x: i64::MAX, y: 0 };
    am.add_asteroid(a);
    let pm = ProjectileManager::new(WINDOW);
    let (procm, _snapshot_tx, _kill_rx) = proc_manager_with_channels();

    let mut game = GameState {
        player,
        asteroid_manager: am,
        projectile_manager: pm,
        proc_manager: procm,
    };

    assert!(!game.update(2));
    assert_eq!(game.asteroid_manager.asteroids[0].b.p, Vec2 { x: 100, y: 100 });
    assert_eq!(game.player.b.p, Vec2 { x: 400, y: 400 });
}

#[test]
fn a_frame_purges_the_previous_frames_dead_projectiles() {
    let player_body = MovableBody::new(Vec2 { x: 700, y: 700 }, WINDOW);
    let player = Player::new(player_body, Collider::new(Vec2 { x: 700, y: 700 }, 10));
    let mut am = empty_asteroid_manager();
    am.add_asteroid(small_asteroid_at(100, 100));
    let mut pm = ProjectileManager::new(WINDOW);
    pm.spawn_projectile(Vec2 { x: 100, y: 100 }, 0);
    let (procm, _snapshot_tx, _kill_rx) = proc_manager_with_channels();

    let mut game = GameState {
        player,
        asteroid_manager: am,
        projectile_manager: pm,
        proc_manager: procm,
    };

    // frame one: the projectile starts on the asteroid, so after the
    // updates it has flown on but the sweep tests the moved pair; make the
    // hit certain by a zero-length step
    assert!(game.update(0));
    assert_eq!(game.projectile_manager.projectiles[0].b.state, BodyState::Dead);
    assert_eq!(game.asteroid_manager.asteroids[0].b.state, BodyState::Dead);

    // frame two: the purge at the head of the frame drops the dead one
    assert!(game.update(1));
    assert!(game.projectile_manager.projectiles.is_empty());
    assert_eq!(game.asteroid_manager.asteroids.len(), 1);
}
