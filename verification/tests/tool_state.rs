use terraweld::fixed::Vec2i;
use terraweld::player::{follow_cam, movement, Chassis, PlayerPlugin};
use terraweld::presets::{BodyType, CargoItem, ItemState, Package, Preset};
use terraweld::tool::{
    check_anchor_point, check_anchor_shape, check_package, check_placeable, fixed_joint,
    revolute_joint, update_state, GrabCandidate, JointKind, MouseInput, Nailgun, QuerySnapshot,
    SelectedItem, ToolColor, ToolDisplay, ToolPlugin, ZSequencer, TOOL_TEXTURE,
};

/// The idle sprite: default tint, no rotation, bottom-left anchor, the
/// tool's own texture.
fn assert_idle_display(d: &ToolDisplay) {
    assert_eq!(d.color, ToolColor::Default);
    assert_eq!(d.rotation, 0);
    assert_eq!(d.anchor, Vec2i { x: 0, y: 0 });
    assert_eq!(d.size, 50);
    assert_eq!(d.texture, TOOL_TEXTURE);
}

fn empty_snapshot() -> QuerySnapshot {
    QuerySnapshot {
        held_in_packages: true,
        placement_hits: vec![],
        point_anchor_hits: vec![],
        shape_anchor_hits: vec![],
        package_hits: vec![],
    }
}

fn no_clicks() -> MouseInput {
    MouseInput { left_click: false, right_click: false }
}

fn left_click() -> MouseInput {
    MouseInput { left_click: true, right_click: false }
}

fn right_click() -> MouseInput {
    MouseInput { left_click: false, right_click: true }
}

fn crate_item(entity: u64, x: i64, y: i64) -> CargoItem {
    CargoItem {
        entity,
        position: Vec2i { x, y },
        z: 0,
        rotation: 0,
        state: ItemState::Pickable,
        frozen: false,
        body: BodyType::Dynamic,
        groups: Preset::WoodenCrate.apply().groups,
        package: Package { name: "Wooden Crate", price: 1, is_point: false },
        texture: "wooden_crate.png",
        joint: None,
    }
}

fn holding(entity: u64, is_point: bool) -> Nailgun {
    Nailgun {
        item: Some(SelectedItem {
            entity,
            linear_offset: Vec2i { x: 10, y: 10 },
            angular_offset: 0,
            is_point,
        }),
    }
}

#[test]
fn placement_gating() {
    assert!(check_placeable(&vec![]));
    assert!(check_placeable(&vec![11]));
    assert!(!check_placeable(&vec![11, 12]));
    assert!(!check_placeable(&vec![11, 12, 13]));
}

#[test]
fn anchor_checks() {
    assert!(!check_anchor_point(&vec![]));
    assert!(check_anchor_point(&vec![5]));
    assert!(!check_anchor_shape(&vec![]));
    assert!(check_anchor_shape(&vec![5, 6]));
}

#[test]
fn package_under_cursor_is_first() {
    assert!(check_package(&vec![]).is_none());
    let g = GrabCandidate { entity: 9, position: Vec2i { x: 1, y: 2 }, rotation: 0, is_point: false, sprite_size: 64, texture: "wooden_crate.png" };
    let h = GrabCandidate { entity: 8, position: Vec2i { x: 3, y: 4 }, rotation: 0, is_point: false, sprite_size: 44, texture: "bowling_ball.png" };
    let found = check_package(&vec![g, h]).unwrap();
    assert_eq!(found.entity, 9);
}

#[test]
fn point_anchor_ignores_shape_query() {
    // A point-anchored item validates through the point containment test
    // alone: shape overlaps neither help nor hurt.
    let mut snap = empty_snapshot();
    snap.shape_anchor_hits = vec![41];
    snap.placement_hits = vec![41];
    let mut tool = holding(7, true);
    let mut display = ToolDisplay::default();
    let commit = update_state(&mut tool, &mut display, Vec2i { x: 0, y: 0 }, &snap, &left_click());
    assert!(commit.is_none());
    assert_eq!(display.color, ToolColor::Red);

    let mut snap2 = empty_snapshot();
    snap2.point_anchor_hits = vec![41];
    snap2.placement_hits = vec![41];
    let mut tool2 = holding(7, true);
    let mut display2 = ToolDisplay::default();
    let commit2 = update_state(&mut tool2, &mut display2, Vec2i { x: 5, y: 6 }, &snap2, &left_click());
    assert_eq!(commit2, Some(Vec2i { x: 5, y: 6 }));
}

#[test]
fn shape_anchor_ignores_point_query() {
    let mut snap = empty_snapshot();
    snap.point_anchor_hits = vec![41];
    snap.placement_hits = vec![41];
    let mut tool = holding(7, false);
    let mut display = ToolDisplay::default();
    let commit = update_state(&mut tool, &mut display, Vec2i { x: 0, y: 0 }, &snap, &left_click());
    assert!(commit.is_none());
    assert_eq!(display.color, ToolColor::Red);

    let mut snap2 = empty_snapshot();
    snap2.shape_anchor_hits = vec![41];
    snap2.placement_hits = vec![41];
    let mut tool2 = holding(7, false);
    let mut display2 = ToolDisplay::default();
    let commit2 = update_state(&mut tool2, &mut display2, Vec2i { x: 5, y: 6 }, &snap2, &left_click());
    assert_eq!(commit2, Some(Vec2i { x: 5, y: 6 }));
}

#[test]
fn crowded_placement_blocks_commit() {
    // A valid anchor under the cursor, but two anchorable overlaps: the
    // weld is refused and the sprite turns red.
    let mut snap = empty_snapshot();
    snap.shape_anchor_hits = vec![41];
    snap.placement_hits = vec![41, 42];
    let mut tool = holding(7, false);
    let mut display = ToolDisplay::default();
    let commit = update_state(&mut tool, &mut display, Vec2i { x: 0, y: 0 }, &snap, &left_click());
    assert!(commit.is_none());
    assert_eq!(display.color, ToolColor::Red);
    assert!(tool.item.is_some());
}

#[test]
fn grab_records_offsets() {
    let mut tool = Nailgun::default();
    let mut display = ToolDisplay::default();
    let mut snap = empty_snapshot();
    snap.package_hits = vec![GrabCandidate {
        entity: 7,
        position: Vec2i { x: 100, y: 40 },
        rotation: 0,
        is_point: false,
        sprite_size: 64,
        texture: "wooden_crate.png",
    }];
    let commit = update_state(&mut tool, &mut display, Vec2i { x: 90, y: 30 }, &snap, &left_click());
    assert!(commit.is_none());
    let item = tool.item.unwrap();
    assert_eq!(item.entity, 7);
    assert_eq!(item.linear_offset, Vec2i { x: 10, y: 10 });
    assert_eq!(item.angular_offset, 0);
    assert!(!item.is_point);
    assert_eq!(display.color, ToolColor::Neutral);
    assert_eq!(display.size, 64);
    assert_eq!(display.texture, "wooden_crate.png");
    // The sprite anchor is the un-rotated grab offset in sprite units,
    // rounded down: -10 / 64 on each axis.
    assert_eq!(display.anchor, Vec2i { x: -1, y: -1 });
}

#[test]
fn grab_point_item_holds_at_cursor() {
    let mut tool = Nailgun::default();
    let mut display = ToolDisplay::default();
    let mut snap = empty_snapshot();
    snap.package_hits = vec![GrabCandidate {
        entity: 3,
        position: Vec2i { x: 100, y: 40 },
        rotation: 500,
        is_point: true,
        sprite_size: 66,
        texture: "wheel1.png",
    }];
    update_state(&mut tool, &mut display, Vec2i { x: 90, y: 30 }, &snap, &left_click());
    let item = tool.item.unwrap();
    assert_eq!(item.linear_offset, Vec2i { x: 0, y: 0 });
    assert_eq!(item.angular_offset, 500);
    assert!(item.is_point);
}

#[test]
fn forced_release_on_lost_marker() {
    let mut tool = holding(7, false);
    let mut display = ToolDisplay {
        color: ToolColor::Neutral,
        rotation: 3,
        anchor: Vec2i { x: 1, y: 1 },
        size: 64,
        texture: "wooden_crate.png",
    };
    let mut snap = empty_snapshot();
    snap.held_in_packages = false;
    let commit = update_state(&mut tool, &mut display, Vec2i { x: 0, y: 0 }, &snap, &no_clicks());
    assert!(commit.is_none());
    assert!(tool.item.is_none());
    assert_idle_display(&display);
}

#[test]
fn weld_cancel() {
    // Select an item, then right-click: back to idle, the item stays a
    // pickable package, and no joint was created.
    let mut plugin = ToolPlugin::build();
    plugin.tool = holding(7, false);
    let mut items = vec![crate_item(7, 10, 10)];
    let chassis = Chassis { entity: 1, position: Vec2i { x: 0, y: 500 }, rotation: 0 };
    let snap = empty_snapshot();
    plugin.tick(Vec2i { x: 0, y: 0 }, &snap, &right_click(), &chassis, &mut items);
    assert!(plugin.tool.item.is_none());
    assert_eq!(items[0].state, ItemState::Pickable);
    assert!(items[0].joint.is_none());
    assert_eq!(plugin.z.0, 0);
}

#[test]
fn weld_commit() {
    // A shape-anchored item over a valid anchor with no competing
    // overlap: left click welds it to the chassis.
    let mut plugin = ToolPlugin::build();
    plugin.tool = holding(7, false);
    let mut items = vec![crate_item(7, 210, 310)];
    let chassis = Chassis { entity: 1, position: Vec2i { x: 0, y: 500 }, rotation: 0 };
    let mut snap = empty_snapshot();
    snap.shape_anchor_hits = vec![41];
    snap.placement_hits = vec![41];
    plugin.tick(Vec2i { x: 200, y: 300 }, &snap, &left_click(), &chassis, &mut items);

    assert!(plugin.tool.item.is_none());
    let it = &items[0];
    assert_eq!(it.state, ItemState::Anchored);
    assert_eq!(it.groups.memberships, 4); // the player's category
    assert_eq!(it.groups.filters, 1 | 2);
    assert_eq!(it.position, Vec2i { x: 210, y: 310 });
    assert_eq!(it.rotation, 0);
    assert_eq!(it.z, 1);
    let attachment = it.joint.unwrap();
    assert_eq!(attachment.parent, 1);
    assert_eq!(attachment.joint.kind, JointKind::Fixed);
    // The chassis-side offset (0,500) - (200,300) = (-200,200), un-rotated
    // and negated on each side.
    assert_eq!(attachment.joint.local_anchor1, Vec2i { x: 200, y: -200 });
    assert_eq!(attachment.joint.local_anchor2, Vec2i { x: -10, y: -10 });
    assert_eq!(attachment.joint.local_basis1, 0);
    assert_eq!(attachment.joint.local_basis2, 0);
}

#[test]
fn weld_point_item_gets_revolute_joint() {
    let mut plugin = ToolPlugin::build();
    plugin.tool = Nailgun {
        item: Some(SelectedItem {
            entity: 7,
            linear_offset: Vec2i { x: 0, y: 0 },
            angular_offset: 0,
            is_point: true,
        }),
    };
    let mut items = vec![CargoItem {
        package: Package { name: "Bonus Wheel", price: 3, is_point: true },
        ..crate_item(7, 200, 300)
    }];
    let chassis = Chassis { entity: 1, position: Vec2i { x: 0, y: 500 }, rotation: 0 };
    let mut snap = empty_snapshot();
    snap.point_anchor_hits = vec![41];
    snap.placement_hits = vec![41];
    plugin.tick(Vec2i { x: 200, y: 300 }, &snap, &left_click(), &chassis, &mut items);
    let attachment = items[0].joint.unwrap();
    assert_eq!(attachment.joint.kind, JointKind::Revolute);
    assert_eq!(attachment.joint.local_anchor1, Vec2i { x: 200, y: -200 });
    assert_eq!(attachment.joint.local_anchor2, Vec2i { x: 0, y: 0 });
}

#[test]
fn joint_math_at_rest() {
    let j = fixed_joint(Vec2i { x: 10, y: 10 }, Vec2i { x: -200, y: 200 }, 0, 0);
    assert_eq!(j.kind, JointKind::Fixed);
    assert_eq!(j.local_anchor1, Vec2i { x: 200, y: -200 });
    assert_eq!(j.local_anchor2, Vec2i { x: -10, y: -10 });
    let r = revolute_joint(Vec2i { x: -200, y: 200 }, 0);
    assert_eq!(r.kind, JointKind::Revolute);
    assert_eq!(r.local_anchor1, Vec2i { x: 200, y: -200 });
}

#[test]
fn joint_math_rotated() {
    // With the item's frame a quarter turn ahead, the grab offset is
    // rotated back by a quarter turn before negation.
    let j = fixed_joint(Vec2i { x: 10, y: 0 }, Vec2i { x: 0, y: 0 }, 16384, 0);
    assert_eq!(j.local_anchor2, Vec2i { x: 0, y: 10 });
    assert_eq!(j.local_basis2, -16384);
}

#[test]
fn z_sequencer_counts_up() {
    let mut z = ZSequencer::default();
    assert_eq!(z.next(), 1);
    assert_eq!(z.next(), 2);
    assert_eq!(z.next(), 3);
}

#[test]
fn movement_torque() {
    assert_eq!(movement(true, false), 15);
    assert_eq!(movement(false, true), -15);
    assert_eq!(movement(true, true), 0);
    assert_eq!(movement(false, false), 0);
}

#[test]
fn camera_follows_by_tenths() {
    assert_eq!(follow_cam(Vec2i { x: 0, y: 0 }, Vec2i { x: 100, y: 55 }), Vec2i { x: 10, y: 5 });
    // Euclidean rounding pulls the negative axis one further.
    assert_eq!(follow_cam(Vec2i { x: 0, y: 0 }, Vec2i { x: -100, y: -5 }), Vec2i { x: -10, y: -1 });
}

#[test]
fn player_build_positions() {
    let (loader, chassis) = PlayerPlugin.build(1);
    assert_eq!(loader.x, 0);
    assert_eq!(chassis.entity, 1);
    assert_eq!(chassis.position, Vec2i { x: 0, y: 500 });
    assert_eq!(chassis.rotation, 0);
}

#[test]
fn holding_valid_without_click_turns_neutral() {
    let mut snap = empty_snapshot();
    snap.shape_anchor_hits = vec![41];
    snap.placement_hits = vec![41];
    let mut tool = holding(7, false);
    let mut display = ToolDisplay {
        color: ToolColor::Red,
        rotation: 0,
        anchor: Vec2i { x: 0, y: 0 },
        size: 64,
        texture: "wooden_crate.png",
    };
    let commit = update_state(&mut tool, &mut display, Vec2i { x: 0, y: 0 }, &snap, &no_clicks());
    assert!(commit.is_none());
    assert_eq!(display.color, ToolColor::Neutral);
    assert!(tool.item.is_some());
}

#[test]
fn commit_keeps_selection_for_weld_step() {
    // update_state alone reports the commit position but leaves the
    // selection for the weld step to consume.
    let mut snap = empty_snapshot();
    snap.shape_anchor_hits = vec![41];
    snap.placement_hits = vec![41];
    let mut tool = holding(7, false);
    let mut display = ToolDisplay::default();
    let commit = update_state(&mut tool, &mut display, Vec2i { x: 1, y: 2 }, &snap, &left_click());
    assert_eq!(commit, Some(Vec2i { x: 1, y: 2 }));
    assert!(tool.item.is_some());
    assert_idle_display(&display);
}

#[test]
fn grab_then_cancel_same_tick() {
    let mut tool = Nailgun::default();
    let mut display = ToolDisplay::default();
    let mut snap = empty_snapshot();
    snap.package_hits = vec![GrabCandidate {
        entity: 7,
        position: Vec2i { x: 0, y: 0 },
        rotation: 0,
        is_point: false,
        sprite_size: 64,
        texture: "wooden_crate.png",
    }];
    let both = MouseInput { left_click: true, right_click: true };
    let commit = update_state(&mut tool, &mut display, Vec2i { x: 0, y: 0 }, &snap, &both);
    assert!(commit.is_none());
    assert!(tool.item.is_none());
    assert_idle_display(&display);
}

#[test]
fn cancel_while_invalid_pose() {
    let mut tool = holding(7, false);
    let mut display = ToolDisplay::default();
    let snap = empty_snapshot();
    let commit = update_state(&mut tool, &mut display, Vec2i { x: 0, y: 0 }, &snap, &right_click());
    assert!(commit.is_none());
    assert!(tool.item.is_none());
    assert_idle_display(&display);
}
