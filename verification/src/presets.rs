//! Cargo presets and the live cargo model.
//!
//! Each preset is a data-only descriptor of a spawnable object: its
//! package identity, collider shape, mass, surface properties and sprite.
//! Spawning picks a preset at random, weighted by its chance; a chance of
//! zero means the preset never spawns.  Fractional quantities (friction,
//! restitution, a rounded corner) are carried in thousandths.

use vstd::prelude::*;

use crate::fixed::Vec2i;
use crate::groups::{CollisionGroups, LOOSE_ITEMS, PLAYER, SOLID_TERRAIN};
use crate::rng::sample_weighted;
use crate::tool::Attachment;

verus! {

/// A pickable cargo object's identity: its display name, price, and
/// whether it welds at a single pivot (point-anchored, like a wheel) or
/// rigidly at its recorded pose (shape-anchored).
#[derive(Clone, Copy, Debug)]
pub struct Package {
    pub name: &'static str,
    pub price: u32,
    pub is_point: bool,
}

/// How a body is simulated: dynamic, or pinned in place.
#[derive(Clone, Copy, Debug, PartialEq, Eq, Structural)]
pub enum BodyType {
    Dynamic,
    Fixed,
}

/// A preset's collider shape, in world units (with the rounded border in
/// thousandths).
#[derive(Clone, Copy, Debug, PartialEq, Eq, Structural)]
pub enum ShapeSpec {
    Cuboid { hx: i64, hy: i64 },
    Ball { radius: i64 },
    RoundCuboid { hx: i64, hy: i64, border_milli: i64 },
}

/// Everything a freshly spawned preset carries.
#[derive(Clone, Copy, Debug)]
pub struct Descriptor {
    pub package: Package,
    pub shape: ShapeSpec,
    pub mass: u32,
    /// Friction coefficient in thousandths, where the preset sets one.
    pub friction_milli: Option<u32>,
    /// Restitution coefficient in thousandths, where the preset sets one.
    pub restitution_milli: Option<u32>,
    pub sprite_size: i64,
    pub texture: &'static str,
    pub body: BodyType,
    pub groups: CollisionGroups,
}

/// The spawnable cargo presets.
#[derive(Clone, Copy, Debug, PartialEq, Eq, Structural)]
pub enum Preset {
    WoodenCrate,
    BowlingBall,
    BeachBall,
    IceCube,
    BonusWheel,
}

/// Relative spawn chance of each preset; the bonus wheel is disabled.
pub open spec fn spec_chance(p: Preset) -> u32 {
    match p {
        Preset::BonusWheel => 0u32,
        _ => 1u32,
    }
}

/// The groups every loose cargo body starts in.
pub open spec fn spec_cargo_groups() -> CollisionGroups {
    CollisionGroups { memberships: LOOSE_ITEMS, filters: SOLID_TERRAIN | LOOSE_ITEMS | PLAYER }
}

/// The full data bundle each preset spawns with: the shared base (a
/// dynamic body in the loose-cargo category) plus its own descriptor.
pub open spec fn spec_apply(p: Preset) -> Descriptor {
    match p {
        Preset::WoodenCrate => Descriptor {
            package: Package { name: "Wooden Crate", price: 1u32, is_point: false },
            shape: ShapeSpec::Cuboid { hx: 30i64, hy: 30i64 },
            mass: 6u32,
            friction_milli: None,
            restitution_milli: None,
            sprite_size: 64i64,
            texture: "wooden_crate.png",
            body: BodyType::Dynamic,
            groups: spec_cargo_groups(),
        },
        Preset::BowlingBall => Descriptor {
            package: Package { name: "Bowling Ball", price: 3u32, is_point: false },
            shape: ShapeSpec::Ball { radius: 20i64 },
            mass: 10u32,
            friction_milli: None,
            restitution_milli: None,
            sprite_size: 44i64,
            texture: "bowling_ball.png",
            body: BodyType::Dynamic,
            groups: spec_cargo_groups(),
        },
        Preset::BeachBall => Descriptor {
            package: Package { name: "Beach Ball", price: 3u32, is_point: false },
            shape: ShapeSpec::Ball { radius: 40i64 },
            mass: 1u32,
            friction_milli: None,
            restitution_milli: Some(950u32),
            sprite_size: 88i64,
            texture: "beach_ball.png",
            body: BodyType::Dynamic,
            groups: spec_cargo_groups(),
        },
        Preset::IceCube => Descriptor {
            package: Package { name: "Ice Cube", price: 1u32, is_point: false },
            shape: ShapeSpec::RoundCuboid { hx: 15i64, hy: 15i64, border_milli: 10i64 },
            mass: 6u32,
            friction_milli: Some(10u32),
            restitution_milli: None,
            sprite_size: 32i64,
            texture: "ice_cube.png",
            body: BodyType::Dynamic,
            groups: spec_cargo_groups(),
        },
        Preset::BonusWheel => Descriptor {
            package: Package { name: "Bonus Wheel", price: 3u32, is_point: true },
            shape: ShapeSpec::Ball { radius: 30i64 },
            mass: 5u32,
            friction_milli: None,
            restitution_milli: None,
            sprite_size: 66i64,
            texture: "wheel1.png",
            body: BodyType::Dynamic,
            groups: spec_cargo_groups(),
        },
    }
}

impl Preset {
    /// This preset's relative spawn chance.
    pub fn chance(&self) -> (c: u32)
        ensures
            c == spec_chance(*self),
    {
        match self {
            Preset::BonusWheel => 0,
            _ => 1,
        }
    }

    /// Picks a preset at random, each with probability proportional to
    /// its chance; presets with chance zero are never picked.
    pub fn get_random(rng: &mut rand::rngs::SmallRng) -> (p: Preset)
        ensures
            spec_chance(p) > 0,
    {
        let mut weights: Vec<u32> = Vec::new();
        weights.push(Preset::WoodenCrate.chance());
        weights.push(Preset::BowlingBall.chance());
        weights.push(Preset::BeachBall.chance());
        weights.push(Preset::IceCube.chance());
        weights.push(Preset::BonusWheel.chance());
        proof {
            assert(weights@.len() == 5);
            assert(weights@[0] == 1u32);
        }
        let idx = sample_weighted(rng, &weights);
        match idx {
            0 => Preset::WoodenCrate,
            1 => Preset::BowlingBall,
            2 => Preset::BeachBall,
            3 => Preset::IceCube,
            _ => {
                proof {
                    assert(weights@[idx as int] == 0u32);
                }
                Preset::BonusWheel
            },
        }
    }

    /// Instantiates this preset's descriptor, base properties included.
    pub fn apply(&self) -> (d: Descriptor)
        ensures
            d == spec_apply(*self),
    {
        match self {
            Preset::WoodenCrate => Descriptor {
                package: Package { name: "Wooden Crate", price: 1, is_point: false },
                shape: ShapeSpec::Cuboid { hx: 30, hy: 30 },
                mass: 6,
                friction_milli: None,
                restitution_milli: None,
                sprite_size: 64,
                texture: "wooden_crate.png",
                body: BodyType::Dynamic,
                groups: CollisionGroups::new(LOOSE_ITEMS, SOLID_TERRAIN | LOOSE_ITEMS | PLAYER),
            },
            Preset::BowlingBall => Descriptor {
                package: Package { name: "Bowling Ball", price: 3, is_point: false },
                shape: ShapeSpec::Ball { radius: 20 },
                mass: 10,
                friction_milli: None,
                restitution_milli: None,
                sprite_size: 44,
                texture: "bowling_ball.png",
                body: BodyType::Dynamic,
                groups: CollisionGroups::new(LOOSE_ITEMS, SOLID_TERRAIN | LOOSE_ITEMS | PLAYER),
            },
            Preset::BeachBall => Descriptor {
                package: Package { name: "Beach Ball", price: 3, is_point: false },
                shape: ShapeSpec::Ball { radius: 40 },
                mass: 1,
                friction_milli: None,
                restitution_milli: Some(950),
                sprite_size: 88,
                texture: "beach_ball.png",
                body: BodyType::Dynamic,
                groups: CollisionGroups::new(LOOSE_ITEMS, SOLID_TERRAIN | LOOSE_ITEMS | PLAYER),
            },
            Preset::IceCube => Descriptor {
                package: Package { name: "Ice Cube", price: 1, is_point: false },
                shape: ShapeSpec::RoundCuboid { hx: 15, hy: 15, border_milli: 10 },
                mass: 6,
                friction_milli: Some(10),
                restitution_milli: None,
                sprite_size: 32,
                texture: "ice_cube.png",
                body: BodyType::Dynamic,
                groups: CollisionGroups::new(LOOSE_ITEMS, SOLID_TERRAIN | LOOSE_ITEMS | PLAYER),
            },
            Preset::BonusWheel => Descriptor {
                package: Package { name: "Bonus Wheel", price: 3, is_point: true },
                shape: ShapeSpec::Ball { radius: 30 },
                mass: 5,
                friction_milli: None,
                restitution_milli: None,
                sprite_size: 66,
                texture: "wheel1.png",
                body: BodyType::Dynamic,
                groups: CollisionGroups::new(LOOSE_ITEMS, SOLID_TERRAIN | LOOSE_ITEMS | PLAYER),
            },
        }
    }
}

/// Whether a cargo object is still pickable, or welded to the vehicle
/// and usable as a weld target (one field, so the two can never be
/// tagged at once).
#[derive(Clone, Copy, Debug, PartialEq, Eq, Structural)]
pub enum ItemState {
    Pickable,
    Anchored,
}

/// One live cargo entity of the model world.
#[derive(Clone, Copy, Debug)]
pub struct CargoItem {
    pub entity: u64,
    pub position: Vec2i,
    /// Draw-order offset, handed out by the tool's sequencer on weld.
    pub z: u64,
    /// Orientation, in angle units.
    pub rotation: i64,
    pub state: ItemState,
    pub frozen: bool,
    pub body: BodyType,
    pub groups: CollisionGroups,
    pub package: Package,
    /// Name of the sprite the item shows.
    pub texture: &'static str,
    /// The joint holding the item to the chassis, once welded.
    pub joint: Option<Attachment>,
}

} // verus!
