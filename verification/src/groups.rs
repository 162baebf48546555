//! Collision-category bitmasks.
//!
//! Terrain, loose cargo and the player's vehicle live in distinct
//! categories; the filter mask of a body decides which categories it
//! collides with.

use vstd::prelude::*;

verus! {

/// Category bit of static terrain chunks.
pub const SOLID_TERRAIN: u32 = 1;

/// Category bit of loose, pickable cargo.
pub const LOOSE_ITEMS: u32 = 2;

/// Category bit of the player's vehicle and everything welded to it.
pub const PLAYER: u32 = 4;

/// Membership and filter masks of one collider.
#[derive(Clone, Copy, Debug, PartialEq, Eq, Structural)]
pub struct CollisionGroups {
    pub memberships: u32,
    pub filters: u32,
}

impl CollisionGroups {
    pub fn new(memberships: u32, filters: u32) -> (r: CollisionGroups)
        ensures
            r.memberships == memberships,
            r.filters == filters,
    {
        CollisionGroups { memberships, filters }
    }
}

} // verus!
