use vstd::prelude::*;

use crate::collider::Collider;

verus! {

/// The closed set of entity kinds, used as a self-tag for collision
/// dispatch.
#[derive(Clone, Copy, Debug, PartialEq, Eq, Structural)]
pub enum ColliderType {
    Asteroid,
    Projectile,
    Player,
}

/// The collision capability every entity variant exposes: read access to
/// its collider and a self-tag for dispatch. The pairwise test
/// (`collides_with`) and the reaction hook (`on_collision`) are generic
/// over this capability and live on each variant.
pub trait Collides: Sized {
    /// The entity's collider, as contracts see it.
    spec fn spec_collider(&self) -> Collider;

    /// The entity's self-tag, as contracts see it.
    spec fn spec_tag(&self) -> ColliderType;

    fn get_collider(&self) -> (c: &Collider)
        ensures
            *c == self.spec_collider(),
    ;

    fn collider_type(&self) -> (t: ColliderType)
        ensures
            t == self.spec_tag(),
    ;
}

} // verus!
