//! The attachment tool state machine.
//!
//! The tool follows the cursor and is either idle or holding one item.
//! A left click over a pickable item grabs it, recording the linear and
//! angular offset from the cursor at grab time.  While holding, two
//! checks run every tick against the spatial query facade's results:
//! can-place (fewer than two anchorable colliders overlap the candidate
//! pose) and is-anchor (a point containment test for point-anchored
//! items, a shape overlap test for shape-anchored ones).  A left click
//! while both hold commits the weld; a right click cancels; a held item
//! that lost its pickable marker is force-released first.
//!
//! The spatial queries themselves are the physics engine's: this module
//! consumes their results as plain candidate lists and is verified for
//! every value of them.

use vstd::prelude::*;

use crate::fixed::{rotate_fp, spec_rotate, vec2_bounded, Vec2i, POS_LIMIT};
use crate::groups::{CollisionGroups, LOOSE_ITEMS, PLAYER, SOLID_TERRAIN};
use crate::player::Chassis;
use crate::presets::{CargoItem, ItemState};

verus! {

/// Bound on cursor and entity positions the tool accepts; offsets
/// between two such positions then stay within `POS_LIMIT`.
pub const CURSOR_LIMIT: i64 = 0x80_0000_0000;

/// Edge length of the tool's idle sprite.
pub const TOOL_SIZE: i64 = 50;

/// Name of the tool's own sprite, restored whenever it holds nothing.
pub const TOOL_TEXTURE: &'static str = "tool.png";

/// The item the tool holds: the grabbed entity and the linear and
/// angular offset from the cursor recorded at grab time, plus whether
/// the item is point-anchored.
#[derive(Clone, Copy, Debug)]
pub struct SelectedItem {
    pub entity: u64,
    pub linear_offset: Vec2i,
    pub angular_offset: i64,
    pub is_point: bool,
}

/// The cursor-following tool; holds at most one selected item.
#[derive(Clone, Copy, Debug)]
pub struct Nailgun {
    pub item: Option<SelectedItem>,
}

impl Default for Nailgun {
    fn default() -> (r: Self)
        ensures
            r.item is None,
    {
        Nailgun { item: None }
    }
}

/// Tint of the tool sprite: untouched, valid placement, or invalid.
#[derive(Clone, Copy, Debug, PartialEq, Eq, Structural)]
pub enum ToolColor {
    Default,
    Neutral,
    Red,
}

/// The sprite-level state of the tool the renderer consumes.  While an
/// item is held the tool wears that item's sprite; its own is restored
/// on release.
#[derive(Clone, Copy, Debug)]
pub struct ToolDisplay {
    pub color: ToolColor,
    pub rotation: i64,
    /// Sprite anchor in sprite-size units, scaled by `SCALE` through the
    /// rotation; the idle sprite anchors at its bottom-left corner.
    pub anchor: Vec2i,
    pub size: i64,
    pub texture: &'static str,
}

impl Default for ToolDisplay {
    fn default() -> (r: Self)
        ensures
            r == spec_unset_display(),
    {
        ToolDisplay {
            color: ToolColor::Default,
            rotation: 0,
            anchor: Vec2i { x: 0, y: 0 },
            size: TOOL_SIZE,
            texture: TOOL_TEXTURE,
        }
    }
}

/// The mouse edges relevant to the tool, sampled this tick.
#[derive(Clone, Copy, Debug)]
pub struct MouseInput {
    pub left_click: bool,
    pub right_click: bool,
}

/// A pickable item the point query found under the cursor, with the
/// component data the tool reads off it.
#[derive(Clone, Copy, Debug)]
pub struct GrabCandidate {
    pub entity: u64,
    pub position: Vec2i,
    pub rotation: i64,
    pub is_point: bool,
    pub sprite_size: i64,
    pub texture: &'static str,
}

/// What the spatial query facade reported this tick.  Each list holds
/// the entities the corresponding query returned; the tool's logic is
/// verified for every possible outcome.
#[derive(Debug)]
pub struct QuerySnapshot {
    /// Whether the held entity still carries its pickable marker.
    pub held_in_packages: bool,
    /// Anchorable colliders overlapping the held item's collider at the
    /// candidate pose.
    pub placement_hits: Vec<u64>,
    /// Anchorable colliders containing the cursor point.
    pub point_anchor_hits: Vec<u64>,
    /// Anchorable colliders overlapping the held item's shape at the
    /// candidate pose.
    pub shape_anchor_hits: Vec<u64>,
    /// Pickable items under the cursor.
    pub package_hits: Vec<GrabCandidate>,
}

pub open spec fn candidate_ok(g: GrabCandidate) -> bool {
    &&& vec2_bounded(g.position, CURSOR_LIMIT as int)
    &&& -POS_LIMIT <= g.rotation <= POS_LIMIT
    &&& 0 < g.sprite_size <= 1048576
}

pub open spec fn snapshot_ok(s: QuerySnapshot) -> bool {
    forall|k: int| 0 <= k < s.package_hits@.len() ==> candidate_ok(#[trigger] s.package_hits@[k])
}

pub open spec fn selected_ok(it: SelectedItem) -> bool {
    &&& vec2_bounded(it.linear_offset, POS_LIMIT as int)
    &&& -POS_LIMIT <= it.angular_offset <= POS_LIMIT
}

/// Hands out strictly increasing draw-order offsets, so welded items
/// stack above what was welded before.
#[derive(Clone, Copy, Debug)]
pub struct ZSequencer(pub u64);

impl Default for ZSequencer {
    fn default() -> (r: Self)
        ensures
            r.0 == 0,
    {
        ZSequencer(0)
    }
}

impl ZSequencer {
    pub fn next(&mut self) -> (z: u64)
        requires
            old(self).0 < u64::MAX,
        ensures
            final(self).0 == old(self).0 + 1,
            z == final(self).0,
    {
        self.0 = self.0 + 1;
        self.0
    }
}

/// The first pickable item the point query returned, if any.
pub fn check_package(hits: &Vec<GrabCandidate>) -> (r: Option<GrabCandidate>)
    ensures
        r == (if hits@.len() > 0 {
            Some(hits@[0])
        } else {
            None::<GrabCandidate>
        }),
{
    if hits.len() > 0 {
        Some(hits[0])
    } else {
        None
    }
}

/// Whether any anchorable collider contains the cursor point.
pub fn check_anchor_point(hits: &Vec<u64>) -> (r: bool)
    ensures
        r == (hits@.len() > 0),
{
    hits.len() > 0
}

/// Whether any anchorable collider overlaps the held shape at the
/// candidate pose.
pub fn check_anchor_shape(hits: &Vec<u64>) -> (r: bool)
    ensures
        r == (hits@.len() > 0),
{
    hits.len() > 0
}

/// Whether the held item may be placed: counting the anchorable
/// colliders overlapping the candidate pose stops below two.  One
/// overlap is the structure the item will attach to; a second means the
/// placement collides.
pub fn check_placeable(hits: &Vec<u64>) -> (r: bool)
    ensures
        r == (hits@.len() < 2),
{
    let mut overlap: usize = 0;
    while overlap < hits.len() && overlap < 2
        invariant
            overlap <= hits@.len(),
            overlap <= 2,
        decreases hits@.len() - overlap,
    {
        overlap = overlap + 1;
    }
    overlap < 2
}

/// `check_placeable`, over the snapshot.
pub open spec fn spec_can_place(snap: QuerySnapshot) -> bool {
    snap.placement_hits@.len() < 2
}

/// Anchor validity of the held item: point containment for
/// point-anchored items, shape overlap for shape-anchored ones.
pub open spec fn spec_is_anchor(item: SelectedItem, snap: QuerySnapshot) -> bool {
    if item.is_point {
        snap.point_anchor_hits@.len() > 0
    } else {
        snap.shape_anchor_hits@.len() > 0
    }
}

/// A point-anchored item's anchor validity depends on the point
/// containment result alone, and a shape-anchored item's on the shape
/// overlap result alone, never on the other query.
pub proof fn lemma_anchor_mode_independence(
    item: SelectedItem,
    s1: QuerySnapshot,
    s2: QuerySnapshot,
)
    requires
        item.is_point ==> s1.point_anchor_hits@ == s2.point_anchor_hits@,
        !item.is_point ==> s1.shape_anchor_hits@ == s2.shape_anchor_hits@,
    ensures
        spec_is_anchor(item, s1) == spec_is_anchor(item, s2),
{
}

/// The offsets recorded when grabbing `g` at cursor `position`: a
/// point-anchored item is held at the cursor itself, a shape-anchored
/// one keeps its displacement and rotation.
pub open spec fn spec_grabbed(g: GrabCandidate, position: Vec2i) -> SelectedItem {
    SelectedItem {
        entity: g.entity,
        linear_offset: if g.is_point {
            Vec2i { x: 0i64, y: 0i64 }
        } else {
            Vec2i {
                x: (g.position.x - position.x) as i64,
                y: (g.position.y - position.y) as i64,
            }
        },
        angular_offset: g.rotation,
        is_point: g.is_point,
    }
}

/// The tool sprite in its idle shape: default tint, no rotation,
/// bottom-left anchor.
pub open spec fn spec_unset_display() -> ToolDisplay {
    ToolDisplay {
        color: ToolColor::Default,
        rotation: 0i64,
        anchor: Vec2i { x: 0i64, y: 0i64 },
        size: TOOL_SIZE,
        texture: TOOL_TEXTURE,
    }
}

/// The tool sprite showing a grabbed item: the item's rotation and
/// sprite, anchored so the sprite sits where the item was grabbed (the
/// grab offset un-rotated, in sprite-size units).
pub open spec fn spec_set_display(g: GrabCandidate, position: Vec2i) -> ToolDisplay {
    let it = spec_grabbed(g, position);
    let a = spec_rotate(
        Vec2i { x: (-it.linear_offset.x) as i64, y: (-it.linear_offset.y) as i64 },
        -it.angular_offset,
    );
    ToolDisplay {
        color: ToolColor::Neutral,
        rotation: g.rotation,
        anchor: Vec2i {
            x: (a.x as int / (g.sprite_size as int)) as i64,
            y: (a.y as int / (g.sprite_size as int)) as i64,
        },
        size: g.sprite_size,
        texture: g.texture,
    }
}

/// Restores the tool sprite to its idle shape.
pub fn unset_tool(display: &mut ToolDisplay)
    ensures
        *final(display) == spec_unset_display(),
{
    *display = ToolDisplay {
        color: ToolColor::Default,
        rotation: 0,
        anchor: Vec2i { x: 0, y: 0 },
        size: TOOL_SIZE,
        texture: TOOL_TEXTURE,
    };
}

/// Dresses the tool sprite as the grabbed item.
pub fn set_tool(display: &mut ToolDisplay, g: &GrabCandidate, position: Vec2i)
    requires
        candidate_ok(*g),
        vec2_bounded(position, CURSOR_LIMIT as int),
    ensures
        *final(display) == spec_set_display(*g, position),
{
    let lin = if g.is_point {
        Vec2i { x: 0, y: 0 }
    } else {
        Vec2i { x: g.position.x - position.x, y: g.position.y - position.y }
    };
    let a = rotate_fp(Vec2i { x: -lin.x, y: -lin.y }, -g.rotation);
    proof {
        crate::fixed::lemma_div_magnitude(a.x as int, g.sprite_size as int);
        crate::fixed::lemma_div_magnitude(a.y as int, g.sprite_size as int);
    }
    let ax = match a.x.checked_div_euclid(g.sprite_size) {
        Some(q) => q,
        None => 0,
    };
    let ay = match a.y.checked_div_euclid(g.sprite_size) {
        Some(q) => q,
        None => 0,
    };
    *display = ToolDisplay {
        color: ToolColor::Neutral,
        rotation: g.rotation,
        anchor: Vec2i { x: ax, y: ay },
        size: g.sprite_size,
        texture: g.texture,
    };
}

/// The held item after the forced-release check: dropped when its
/// pickable marker is gone.
pub open spec fn spec_held_after_release(t: Nailgun, snap: QuerySnapshot) -> Option<SelectedItem> {
    match t.item {
        Some(it) => if snap.held_in_packages {
            Some(it)
        } else {
            None
        },
        None => None,
    }
}

/// The position handed to the weld step: the cursor position exactly
/// when the tool holds a valid, placeable item and the left button was
/// clicked.
pub open spec fn spec_commit(
    t: Nailgun,
    snap: QuerySnapshot,
    mouse: MouseInput,
    position: Vec2i,
) -> Option<Vec2i> {
    match spec_held_after_release(t, snap) {
        Some(it) => if spec_is_anchor(it, snap) && spec_can_place(snap) && mouse.left_click {
            Some(position)
        } else {
            None
        },
        None => None,
    }
}

/// The tool's selection after one tick.  On commit the selection stays
/// until the weld step consumes it; a right click cancels; from idle, a
/// left click grabs the item under the cursor.
pub open spec fn spec_next_item(
    t: Nailgun,
    snap: QuerySnapshot,
    mouse: MouseInput,
    position: Vec2i,
) -> Option<SelectedItem> {
    match spec_held_after_release(t, snap) {
        Some(it) => if spec_is_anchor(it, snap) && spec_can_place(snap) && mouse.left_click {
            Some(it)
        } else if mouse.right_click {
            None
        } else {
            Some(it)
        },
        None => if mouse.left_click && snap.package_hits@.len() > 0 {
            if mouse.right_click {
                None
            } else {
                Some(spec_grabbed(snap.package_hits@[0], position))
            }
        } else {
            None
        },
    }
}

/// The tool sprite after one tick: reset on release, cancel and commit;
/// dressed as the item on grab; tinted by the AND of the two placement
/// checks while holding.
pub open spec fn spec_next_display(
    t: Nailgun,
    d: ToolDisplay,
    snap: QuerySnapshot,
    mouse: MouseInput,
    position: Vec2i,
) -> ToolDisplay {
    let d1 = if t.item is Some && !snap.held_in_packages {
        spec_unset_display()
    } else {
        d
    };
    match spec_held_after_release(t, snap) {
        Some(it) => if spec_is_anchor(it, snap) && spec_can_place(snap) {
            if mouse.left_click {
                spec_unset_display()
            } else if mouse.right_click {
                spec_unset_display()
            } else {
                ToolDisplay { color: ToolColor::Neutral, ..d1 }
            }
        } else {
            if mouse.right_click {
                spec_unset_display()
            } else {
                ToolDisplay { color: ToolColor::Red, ..d1 }
            }
        },
        None => if mouse.left_click && snap.package_hits@.len() > 0 {
            if mouse.right_click {
                spec_unset_display()
            } else {
                spec_set_display(snap.package_hits@[0], position)
            }
        } else {
            d1
        },
    }
}

/// One tick of the tool state machine.  Returns the cursor position on
/// commit, handed on to the weld step; the selection, the sprite state
/// and the returned value follow the functional specification exactly.
pub fn update_state(
    tool: &mut Nailgun,
    display: &mut ToolDisplay,
    position: Vec2i,
    snap: &QuerySnapshot,
    mouse: &MouseInput,
) -> (commit: Option<Vec2i>)
    requires
        vec2_bounded(position, CURSOR_LIMIT as int),
        snapshot_ok(*snap),
        old(tool).item is Some ==> selected_ok(old(tool).item->0),
    ensures
        commit == spec_commit(*old(tool), *snap, *mouse, position),
        final(tool).item == spec_next_item(*old(tool), *snap, *mouse, position),
        *final(display) == spec_next_display(*old(tool), *old(display), *snap, *mouse, position),
        final(tool).item is Some ==> selected_ok(final(tool).item->0),
{
    if tool.item.is_some() && !snap.held_in_packages {
        unset_tool(display);
        tool.item = None;
    }
    match tool.item {
        Some(item) => {
            let can_place = check_placeable(&snap.placement_hits);
            let is_anchor = if item.is_point {
                check_anchor_point(&snap.point_anchor_hits)
            } else {
                check_anchor_shape(&snap.shape_anchor_hits)
            };
            if is_anchor && can_place {
                if mouse.left_click {
                    unset_tool(display);
                    return Some(position);
                } else {
                    display.color = ToolColor::Neutral;
                }
            } else {
                display.color = ToolColor::Red;
            }
        },
        None => {
            if mouse.left_click {
                match check_package(&snap.package_hits) {
                    Some(g) => {
                        let linear_offset = if g.is_point {
                            Vec2i { x: 0, y: 0 }
                        } else {
                            Vec2i {
                                x: g.position.x - position.x,
                                y: g.position.y - position.y,
                            }
                        };
                        set_tool(display, &g, position);
                        tool.item = Some(
                            SelectedItem {
                                entity: g.entity,
                                linear_offset,
                                angular_offset: g.rotation,
                                is_point: g.is_point,
                            },
                        );
                    },
                    None => {},
                }
            }
        },
    }
    if mouse.right_click && tool.item.is_some() {
        tool.item = None;
        unset_tool(display);
    }
    None
}

/// The kinds of weld joint the tool builds.
#[derive(Clone, Copy, Debug, PartialEq, Eq, Structural)]
pub enum JointKind {
    /// Zero relative freedom: the item stays at its recorded pose.
    Fixed,
    /// One rotational degree of freedom: the item spins around the
    /// anchor, for wheel-like objects.
    Revolute,
}

/// A weld joint between the chassis (body 1) and the item (body 2), as
/// local anchors and frame rotations on each body.
#[derive(Clone, Copy, Debug, PartialEq, Eq, Structural)]
pub struct JointSpec {
    pub kind: JointKind,
    pub local_anchor1: Vec2i,
    pub local_anchor2: Vec2i,
    pub local_basis1: i64,
    pub local_basis2: i64,
}

/// A built joint and the entity it attaches to.
#[derive(Clone, Copy, Debug)]
pub struct Attachment {
    pub parent: u64,
    pub joint: JointSpec,
}

/// The rigid weld: each side's grab offset rotated back by its own
/// angular offset and negated, so the item keeps the exact relative
/// pose it had at grab time.
pub open spec fn spec_fixed_joint(a1: Vec2i, a2: Vec2i, b1: int, b2: int) -> JointSpec {
    let r1 = spec_rotate(a1, -b1);
    let r2 = spec_rotate(a2, -b2);
    JointSpec {
        kind: JointKind::Fixed,
        local_anchor1: Vec2i { x: (-r2.x) as i64, y: (-r2.y) as i64 },
        local_anchor2: Vec2i { x: (-r1.x) as i64, y: (-r1.y) as i64 },
        local_basis1: (-b2) as i64,
        local_basis2: (-b1) as i64,
    }
}

/// The spinning weld for point-anchored items: anchored on the chassis
/// side only, leaving the item free to rotate.
pub open spec fn spec_revolute_joint(a2: Vec2i, b2: int) -> JointSpec {
    let r2 = spec_rotate(a2, -b2);
    JointSpec {
        kind: JointKind::Revolute,
        local_anchor1: Vec2i { x: (-r2.x) as i64, y: (-r2.y) as i64 },
        local_anchor2: Vec2i { x: 0i64, y: 0i64 },
        local_basis1: 0i64,
        local_basis2: 0i64,
    }
}

pub fn fixed_joint(a1: Vec2i, a2: Vec2i, b1: i64, b2: i64) -> (j: JointSpec)
    requires
        vec2_bounded(a1, POS_LIMIT as int),
        vec2_bounded(a2, POS_LIMIT as int),
        -POS_LIMIT <= b1 <= POS_LIMIT,
        -POS_LIMIT <= b2 <= POS_LIMIT,
    ensures
        j == spec_fixed_joint(a1, a2, b1 as int, b2 as int),
{
    let r1 = rotate_fp(a1, -b1);
    let r2 = rotate_fp(a2, -b2);
    JointSpec {
        kind: JointKind::Fixed,
        local_anchor1: Vec2i { x: -r2.x, y: -r2.y },
        local_anchor2: Vec2i { x: -r1.x, y: -r1.y },
        local_basis1: -b2,
        local_basis2: -b1,
    }
}

pub fn revolute_joint(a2: Vec2i, b2: i64) -> (j: JointSpec)
    requires
        vec2_bounded(a2, POS_LIMIT as int),
        -POS_LIMIT <= b2 <= POS_LIMIT,
    ensures
        j == spec_revolute_joint(a2, b2 as int),
{
    let r2 = rotate_fp(a2, -b2);
    JointSpec {
        kind: JointKind::Revolute,
        local_anchor1: Vec2i { x: -r2.x, y: -r2.y },
        local_anchor2: Vec2i { x: 0, y: 0 },
        local_basis1: 0,
        local_basis2: 0,
    }
}

/// Whether some cargo item has the given entity id.
pub open spec fn contains_entity(s: Seq<CargoItem>, e: u64) -> bool {
    exists|k: int| 0 <= k < s.len() && (#[trigger] s[k]).entity == e
}

/// The welded form of `item`: moved to the committed pose, recolored
/// into the player's collision category, anchorable from now on and
/// never pickable again, held by the joint the grab offsets dictate.
/// A revolute joint is built only for point-anchored items.
pub open spec fn spec_welded(
    item: CargoItem,
    sel: SelectedItem,
    chassis: Chassis,
    position: Vec2i,
    z: u64,
) -> CargoItem {
    let ang2 = chassis.rotation as int;
    let lin2 = Vec2i {
        x: (chassis.position.x - position.x) as i64,
        y: (chassis.position.y - position.y) as i64,
    };
    let joint = if item.package.is_point {
        spec_revolute_joint(lin2, ang2)
    } else {
        spec_fixed_joint(sel.linear_offset, lin2, sel.angular_offset as int, ang2)
    };
    CargoItem {
        position: Vec2i {
            x: (position.x + sel.linear_offset.x) as i64,
            y: (position.y + sel.linear_offset.y) as i64,
        },
        z,
        rotation: sel.angular_offset,
        state: ItemState::Anchored,
        groups: CollisionGroups { memberships: PLAYER, filters: SOLID_TERRAIN | LOOSE_ITEMS },
        joint: Some(Attachment { parent: chassis.entity, joint }),
        ..item
    }
}

/// Index of the first cargo item with the given entity id.
fn find_entity(items: &Vec<CargoItem>, e: u64) -> (j: usize)
    requires
        contains_entity(items@, e),
    ensures
        j < items@.len(),
        items@[j as int].entity == e,
{
    let mut j: usize = 0;
    while j < items.len()
        invariant
            contains_entity(items@, e),
            0 <= j <= items@.len(),
            forall|k: int| 0 <= k < j ==> (#[trigger] items@[k]).entity != e,
        decreases items@.len() - j,
    {
        if items[j].entity == e {
            return j;
        }
        j = j + 1;
    }
    proof {
        assert(false);
    }
    0
}

/// The weld step, consuming the position `update_state` committed.  The
/// held item snaps to the committed pose, joins the player's collision
/// category, becomes anchorable, stops being a package, and one joint
/// now ties it to the chassis; the tool lets go.
pub fn nail(
    position: Option<Vec2i>,
    tool: &mut Nailgun,
    chassis: &Chassis,
    packages: &mut Vec<CargoItem>,
    z_sequencer: &mut ZSequencer,
)
    requires
        position is Some ==> old(tool).item is Some && selected_ok(old(tool).item->0)
            && contains_entity(old(packages)@, old(tool).item->0.entity),
        position is Some ==> vec2_bounded(position->0, CURSOR_LIMIT as int),
        crate::player::chassis_ok(*chassis),
        old(z_sequencer).0 < u64::MAX,
    ensures
        position is None ==> *final(tool) == *old(tool) && final(packages)@ == old(packages)@
            && *final(z_sequencer) == *old(z_sequencer),
        position is Some ==> final(tool).item is None && final(z_sequencer).0
            == old(z_sequencer).0 + 1 && (exists|j: int|
            0 <= j < old(packages)@.len() && (#[trigger] old(packages)@[j]).entity
                == old(tool).item->0.entity && final(packages)@ == old(packages)@.update(
                j,
                spec_welded(
                    old(packages)@[j],
                    old(tool).item->0,
                    *chassis,
                    position->0,
                    (old(z_sequencer).0 + 1) as u64,
                ),
            )),
{
    match (position, tool.item) {
        (Some(pos), Some(item)) => {
            let angular_offset = chassis.rotation;
            let linear_offset = Vec2i {
                x: chassis.position.x - pos.x,
                y: chassis.position.y - pos.y,
            };
            let j = find_entity(packages, item.entity);
            let pkg = packages[j];
            let joint = if pkg.package.is_point {
                revolute_joint(linear_offset, angular_offset)
            } else {
                fixed_joint(item.linear_offset, linear_offset, item.angular_offset, angular_offset)
            };
            let z = z_sequencer.next();
            let welded = CargoItem {
                entity: pkg.entity,
                position: Vec2i { x: pos.x + item.linear_offset.x, y: pos.y + item.linear_offset.y },
                z,
                rotation: item.angular_offset,
                state: ItemState::Anchored,
                frozen: pkg.frozen,
                body: pkg.body,
                groups: CollisionGroups::new(PLAYER, SOLID_TERRAIN | LOOSE_ITEMS),
                package: pkg.package,
                texture: pkg.texture,
                joint: Some(Attachment { parent: chassis.entity, joint }),
            };
            packages.set(j, welded);
            tool.item = None;
            proof {
                assert(final(packages)@ == old(packages)@.update(
                    j as int,
                    spec_welded(
                        old(packages)@[j as int],
                        old(tool).item->0,
                        *chassis,
                        pos,
                        (old(z_sequencer).0 + 1) as u64,
                    ),
                ));
            }
        },
        _ => {},
    }
}

/// The tool subsystem: the tool, its sprite state and the draw-order
/// sequencer, advanced by one `tick` per frame (the state update chained
/// into the weld step, as the schedule orders them).
#[derive(Clone, Copy, Debug)]
pub struct ToolPlugin {
    pub tool: Nailgun,
    pub display: ToolDisplay,
    pub z: ZSequencer,
}

impl ToolPlugin {
    /// The tool as it spawns: idle, with its own sprite.
    pub fn build() -> (r: ToolPlugin)
        ensures
            r.tool.item is None,
            r.display == spec_unset_display(),
            r.z.0 == 0,
    {
        ToolPlugin { tool: Nailgun::default(), display: ToolDisplay::default(), z: ZSequencer::default() }
    }

    /// One frame of the tool: evaluate the state machine, then weld if
    /// it committed.
    pub fn tick(
        &mut self,
        position: Vec2i,
        snap: &QuerySnapshot,
        mouse: &MouseInput,
        chassis: &Chassis,
        packages: &mut Vec<CargoItem>,
    )
        requires
            vec2_bounded(position, CURSOR_LIMIT as int),
            snapshot_ok(*snap),
            crate::player::chassis_ok(*chassis),
            old(self).tool.item is Some ==> selected_ok(old(self).tool.item->0),
            old(self).tool.item is Some && snap.held_in_packages ==> contains_entity(
                old(packages)@,
                old(self).tool.item->0.entity,
            ),
            old(self).z.0 < u64::MAX,
        ensures
            final(self).display == spec_next_display(
                old(self).tool,
                old(self).display,
                *snap,
                *mouse,
                position,
            ),
            spec_commit(old(self).tool, *snap, *mouse, position) is None ==> final(self).tool.item
                == spec_next_item(old(self).tool, *snap, *mouse, position) && final(packages)@
                == old(packages)@ && final(self).z == old(self).z,
            spec_commit(old(self).tool, *snap, *mouse, position) is Some ==> final(self).tool.item
                is None && final(self).z.0 == old(self).z.0 + 1 && (exists|j: int|
                0 <= j < old(packages)@.len() && (#[trigger] old(packages)@[j]).entity
                == old(self).tool.item->0.entity && final(packages)@ == old(packages)@.update(
                    j,
                    spec_welded(
                        old(packages)@[j],
                        old(self).tool.item->0,
                        *chassis,
                        position,
                        (old(self).z.0 + 1) as u64,
                    ),
                )),
    {
        let commit = update_state(&mut self.tool, &mut self.display, position, snap, mouse);
        nail(commit, &mut self.tool, chassis, packages, &mut self.z);
    }
}

} // verus!
