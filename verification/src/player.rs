//! The player's vehicle and its camera.
//!
//! The chassis is the weld target everything attaches to, and the
//! camera that follows it is the chunk loader driving terrain
//! streaming.  Key input becomes wheel torque; the camera eases toward
//! the chassis by a tenth of the gap each frame.

use vstd::prelude::*;

use crate::chunk::Chunkloader;
use crate::fixed::{vec2_bounded, Vec2i, POS_LIMIT};
use crate::tool::CURSOR_LIMIT;

verus! {

/// The vehicle chassis: the first anchorable body, whose pose the weld
/// step reads.
#[derive(Clone, Copy, Debug)]
pub struct Chassis {
    pub entity: u64,
    pub position: Vec2i,
    /// Orientation, in angle units.
    pub rotation: i64,
}

pub open spec fn chassis_ok(c: Chassis) -> bool {
    &&& vec2_bounded(c.position, CURSOR_LIMIT as int)
    &&& -POS_LIMIT <= c.rotation <= POS_LIMIT
}

/// Torque the drive keys put on the wheels (and on everything welded):
/// five units of drive per pressed key, scaled by three.
pub fn movement(a_pressed: bool, d_pressed: bool) -> (torque: i64)
    ensures
        torque == 3 * ((if a_pressed {
            5int
        } else {
            0int
        }) - (if d_pressed {
            5int
        } else {
            0int
        })),
{
    let mut delta: i64 = 0;
    if a_pressed {
        delta = delta + 5;
    }
    if d_pressed {
        delta = delta - 5;
    }
    delta * 3
}

/// One step of the camera follow: the camera moves a tenth of the way
/// toward the chassis, each axis rounded down.
pub fn follow_cam(cam: Vec2i, chassis: Vec2i) -> (r: Vec2i)
    requires
        vec2_bounded(cam, POS_LIMIT as int),
        vec2_bounded(chassis, POS_LIMIT as int),
    ensures
        r.x == cam.x + (chassis.x - cam.x) / 10,
        r.y == cam.y + (chassis.y - cam.y) / 10,
{
    let dx = chassis.x - cam.x;
    let dy = chassis.y - cam.y;
    proof {
        crate::fixed::lemma_div_magnitude(dx as int, 10);
        crate::fixed::lemma_div_magnitude(dy as int, 10);
    }
    let sx = match dx.checked_div_euclid(10) {
        Some(q) => q,
        None => 0,
    };
    let sy = match dy.checked_div_euclid(10) {
        Some(q) => q,
        None => 0,
    };
    Vec2i { x: cam.x + sx, y: cam.y + sy }
}

/// The player subsystem: spawns the camera (the chunk loader) and the
/// car chassis at world start.
#[derive(Clone, Copy, Debug)]
pub struct PlayerPlugin;

impl PlayerPlugin {
    /// Startup: the camera at the origin, the chassis at (0, 500).
    pub fn build(&self, chassis_entity: u64) -> (r: (Chunkloader, Chassis))
        ensures
            r.0.x == 0,
            r.1.entity == chassis_entity,
            r.1.position == (Vec2i { x: 0i64, y: 500i64 }),
            r.1.rotation == 0,
            chassis_ok(r.1),
    {
        (
            Chunkloader { x: 0 },
            Chassis { entity: chassis_entity, position: Vec2i { x: 0, y: 500 }, rotation: 0 },
        )
    }
}

} // verus!
