use terraweld::director::{
    defroster, despawn, freezer, spawn, PackagePlugin, PackageSpawner, PackageSpawnerConfig,
    SpawnerConfigError,
};
use terraweld::fixed::Vec2i;
use terraweld::presets::{BodyType, CargoItem, ItemState, Package, Preset};

fn pickable(entity: u64, x: i64) -> CargoItem {
    CargoItem {
        entity,
        position: Vec2i { x, y: 500 },
        z: 0,
        rotation: 0,
        state: ItemState::Pickable,
        frozen: false,
        body: BodyType::Dynamic,
        groups: Preset::WoodenCrate.apply().groups,
        package: Package { name: "Wooden Crate", price: 1, is_point: false },
        texture: "wooden_crate.png",
        joint: None,
    }
}

#[test]
fn spawner_config_defaults() {
    let c = PackageSpawnerConfig::default();
    assert_eq!(c.distance_apart, 1024);
    assert_eq!(c.spawn_distance, 2048);
    assert_eq!(c.despawn_distance, 8192);
    assert_eq!(c.freeze_distance, 3072);
}

#[test]
fn spawn_cargo_scenario() {
    // With distance_apart = 1024 and the vehicle at x = 0, the 2048
    // lookahead already covers the first spawn position: one item
    // appears at 1024, a second at 2048, and then no more.
    let config = PackageSpawnerConfig::default();
    let mut spawner = PackageSpawner::default();
    let mut items: Vec<CargoItem> = Vec::new();
    spawn(&mut spawner, &config, 0, &mut items, 100);
    assert_eq!(items.len(), 1);
    assert_eq!(spawner.last_spawned, 1);
    assert_eq!(items[0].position, Vec2i { x: 1024, y: 500 });
    assert_eq!(items[0].entity, 100);
    assert_eq!(items[0].state, ItemState::Pickable);
    assert_eq!(items[0].body, BodyType::Dynamic);
    assert!(items[0].joint.is_none());

    spawn(&mut spawner, &config, 0, &mut items, 101);
    assert_eq!(items.len(), 2);
    assert_eq!(items[1].position.x, 2048);

    spawn(&mut spawner, &config, 0, &mut items, 102);
    assert_eq!(items.len(), 2, "0 + 2048 is not beyond 2048");
    assert_eq!(spawner.last_spawned, 2);
}

#[test]
fn zero_weight_preset_never_spawns() {
    let mut spawner = PackageSpawner::default();
    for _ in 0..300 {
        let p = Preset::get_random(&mut spawner.rng);
        assert!(!matches!(p, Preset::BonusWheel));
        assert!(p.chance() > 0);
    }
}

#[test]
fn preset_descriptors() {
    let crate_d = Preset::WoodenCrate.apply();
    assert_eq!(crate_d.package.name, "Wooden Crate");
    assert_eq!(crate_d.package.price, 1);
    assert!(!crate_d.package.is_point);
    assert_eq!(crate_d.mass, 6);
    assert_eq!(crate_d.sprite_size, 64);
    assert_eq!(crate_d.groups.memberships, 2);
    assert_eq!(crate_d.groups.filters, 1 | 2 | 4);
    assert_eq!(crate_d.body, BodyType::Dynamic);

    let ball = Preset::BowlingBall.apply();
    assert_eq!(ball.package.price, 3);
    assert_eq!(ball.mass, 10);

    let beach = Preset::BeachBall.apply();
    assert_eq!(beach.restitution_milli, Some(950));
    assert_eq!(beach.mass, 1);

    let ice = Preset::IceCube.apply();
    assert_eq!(ice.friction_milli, Some(10));
    assert_eq!(ice.package.name, "Ice Cube");

    let wheel = Preset::BonusWheel.apply();
    assert!(wheel.package.is_point);
    assert_eq!(wheel.texture, "wheel1.png");
}

#[test]
fn despawn_far_behind() {
    let config = PackageSpawnerConfig::default();
    let mut items = vec![pickable(1, 0), pickable(2, -9000), pickable(3, 9000)];
    despawn(&config, 0, &mut items);
    // Only the item 9000 behind the vehicle goes; far ahead stays.
    let ids: Vec<u64> = items.iter().map(|it| it.entity).collect();
    assert_eq!(ids, vec![1, 3]);
}

#[test]
fn despawn_spares_anchored_cargo() {
    let config = PackageSpawnerConfig::default();
    let mut anchored = pickable(2, -9000);
    anchored.state = ItemState::Anchored;
    let mut items = vec![anchored];
    despawn(&config, 0, &mut items);
    assert_eq!(items.len(), 1);
}

#[test]
fn freeze_and_thaw() {
    let config = PackageSpawnerConfig::default();
    let mut items = vec![pickable(1, 5000), pickable(2, 1000)];
    freezer(&config, 0, &mut items);
    assert!(items[0].frozen);
    assert_eq!(items[0].body, BodyType::Fixed);
    assert!(!items[1].frozen);
    assert_eq!(items[1].body, BodyType::Dynamic);

    // The vehicle catches up: the frozen item thaws.
    defroster(&config, 5000, &mut items);
    assert!(!items[0].frozen);
    assert_eq!(items[0].body, BodyType::Dynamic);
}

#[test]
fn freeze_exact_boundary_is_kept_dynamic() {
    let config = PackageSpawnerConfig::default();
    let mut items = vec![pickable(1, 3072)];
    freezer(&config, 0, &mut items);
    assert!(!items[0].frozen, "freezing needs strictly more than freeze_distance");
    defroster(&config, 0, &mut items);
    assert!(!items[0].frozen);
}

#[test]
fn package_plugin_tick_spawns_and_manages() {
    let mut plugin = PackagePlugin::build();
    assert_eq!(plugin.spawner.last_spawned, 0);
    let mut items: Vec<CargoItem> = Vec::new();
    plugin.tick(0, &mut items, 100);
    assert_eq!(items.len(), 1);
    assert_eq!(items[0].position.x, 1024);
    assert_eq!(plugin.spawner.last_spawned, 1);
    // The fresh spawn sits 1024 ahead: within the freeze band, dynamic.
    assert!(!items[0].frozen);
}

#[test]
fn spawner_config_rejections() {
    assert_eq!(
        PackageSpawnerConfig::new(0, 2048, 8192, 3072),
        Err(SpawnerConfigError::NonPositiveDistance)
    );
    assert_eq!(
        PackageSpawnerConfig::new(1024, 2048, 1 << 40, 3072),
        Err(SpawnerConfigError::DistanceTooLarge)
    );
    let ok = PackageSpawnerConfig::new(1024, 2048, 8192, 3072).unwrap();
    assert_eq!(ok, PackageSpawnerConfig::default());
    assert!(!SpawnerConfigError::DistanceTooLarge.describe().is_empty());
}
