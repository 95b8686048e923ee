mod angle;
mod asteroid;
mod collider;
mod game;
mod movable_body;
mod player;
mod procs;
mod projectile;
mod traits;
mod vec2;

pub use asteroid::{Asteroid, AsteroidManager, AsteroidSizeClass};
pub use collider::{Collider, ColliderState};
pub use game::{collision_sweep, hit, sweep_all, sweep_pair, sweep_row, GameState};
pub use movable_body::{BodyState, BoundaryModeEnum, MovableBody};
pub use player::{Player, RotationState};
pub use procs::{get_procs, Proc, ProcManager};
pub use projectile::{Projectile, ProjectileManager};
pub use traits::{Collides, ColliderType};
pub use vec2::Vec2;
