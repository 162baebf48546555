//! The cargo director: spawning, despawning, freezing.
//!
//! A monotone counter spaces spawns along the track: whenever the
//! vehicle plus a lookahead passes the next multiple of
//! `distance_apart`, one preset is spawned there, chosen by weighted
//! random.  Cargo left far behind is despawned for good; cargo far from
//! the vehicle in either direction is frozen (pinned, cheap to
//! simulate) and unfrozen when back in range.  The three policies are
//! independent passes over the current cargo set.

use vstd::prelude::*;

use crate::fixed::Vec2i;
use crate::presets::{spec_apply, spec_chance, BodyType, CargoItem, ItemState, Preset};
use crate::rng::fresh_rng;
use crate::tool::CURSOR_LIMIT;

verus! {

/// Bound on a spawned item's x position, and on the positions the
/// distance passes accept.
pub const ITEM_LIMIT: i64 = 0x400_0000_0000;

/// Bound on the director's distances.
pub const SPAN_MAX: i64 = 1073741824;

/// Distances driving the cargo lifecycle.
#[derive(Clone, Copy, Debug, PartialEq, Eq, Structural)]
pub struct PackageSpawnerConfig {
    /// Spacing between consecutive spawn positions.
    pub distance_apart: i64,
    /// Lookahead: spawning triggers once the vehicle is this close.
    pub spawn_distance: i64,
    /// Cargo farther behind the vehicle than this is removed.
    pub despawn_distance: i64,
    /// Cargo farther than this, either way, is frozen.
    pub freeze_distance: i64,
}

/// Rejected spawner configurations.
#[derive(Clone, Copy, Debug, PartialEq, Eq, Structural)]
pub enum SpawnerConfigError {
    /// A distance of zero or below: spacing and gating degenerate.
    NonPositiveDistance,
    /// A distance beyond what the position arithmetic admits.
    DistanceTooLarge,
}

impl SpawnerConfigError {
    /// A human-readable account of the rejection.
    pub fn describe(&self) -> &'static str {
        match self {
            SpawnerConfigError::NonPositiveDistance => "spawner config: distances must be positive",
            SpawnerConfigError::DistanceTooLarge => "spawner config: distance out of range",
        }
    }
}

impl PackageSpawnerConfig {
    pub open spec fn valid(self) -> bool {
        &&& 0 < self.distance_apart <= SPAN_MAX
        &&& 0 < self.spawn_distance <= SPAN_MAX
        &&& 0 < self.despawn_distance <= SPAN_MAX
        &&& 0 < self.freeze_distance <= SPAN_MAX
    }

    /// Validates the director's distances at configuration load.
    pub fn new(
        distance_apart: i64,
        spawn_distance: i64,
        despawn_distance: i64,
        freeze_distance: i64,
    ) -> (r: Result<PackageSpawnerConfig, SpawnerConfigError>)
        ensures
            r is Ok <==> (PackageSpawnerConfig {
                distance_apart,
                spawn_distance,
                despawn_distance,
                freeze_distance,
            }).valid(),
            r is Ok ==> r->Ok_0 == (PackageSpawnerConfig {
                distance_apart,
                spawn_distance,
                despawn_distance,
                freeze_distance,
            }),
            distance_apart <= 0 || spawn_distance <= 0 || despawn_distance <= 0
                || freeze_distance <= 0 ==> r == Result::<
                PackageSpawnerConfig,
                SpawnerConfigError,
            >::Err(SpawnerConfigError::NonPositiveDistance),
            r is Err ==> r->Err_0 == SpawnerConfigError::NonPositiveDistance || r->Err_0
                == SpawnerConfigError::DistanceTooLarge,
    {
        if distance_apart <= 0 || spawn_distance <= 0 || despawn_distance <= 0 || freeze_distance
            <= 0 {
            Err(SpawnerConfigError::NonPositiveDistance)
        } else if distance_apart > SPAN_MAX || spawn_distance > SPAN_MAX || despawn_distance
            > SPAN_MAX || freeze_distance > SPAN_MAX {
            Err(SpawnerConfigError::DistanceTooLarge)
        } else {
            Ok(PackageSpawnerConfig { distance_apart, spawn_distance, despawn_distance, freeze_distance })
        }
    }
}

impl Default for PackageSpawnerConfig {
    fn default() -> (r: Self)
        ensures
            r == (PackageSpawnerConfig {
                distance_apart: 1024i64,
                spawn_distance: 2048i64,
                despawn_distance: 8192i64,
                freeze_distance: 3072i64,
            }),
            r.valid(),
    {
        PackageSpawnerConfig {
            distance_apart: 1024,
            spawn_distance: 2048,
            despawn_distance: 8192,
            freeze_distance: 3072,
        }
    }
}

/// The spawner's state: its random source and the index of the last
/// spawn position handed out.
#[derive(Debug)]
pub struct PackageSpawner {
    pub rng: rand::rngs::SmallRng,
    pub last_spawned: u32,
}

impl Default for PackageSpawner {
    fn default() -> (r: Self)
        ensures
            r.last_spawned == 0,
    {
        PackageSpawner { rng: fresh_rng(), last_spawned: 0 }
    }
}

/// Whether the vehicle at `player_x` has come close enough to the next
/// spawn position.
pub open spec fn spec_should_spawn(last: u32, c: PackageSpawnerConfig, player_x: int) -> bool {
    player_x + c.spawn_distance > last * c.distance_apart
}

/// The item a spawn places: the preset's descriptor at rest at `(x, 500)`.
pub open spec fn spec_spawned(entity: u64, x: int, p: Preset) -> CargoItem {
    let d = spec_apply(p);
    CargoItem {
        entity,
        position: Vec2i { x: x as i64, y: 500i64 },
        z: 0u64,
        rotation: 0i64,
        state: ItemState::Pickable,
        frozen: false,
        body: d.body,
        groups: d.groups,
        package: d.package,
        texture: d.texture,
        joint: None,
    }
}

/// One spawner step: if the vehicle's lookahead passed the next spawn
/// position, advance the counter and spawn one weighted-random preset
/// there; presets with chance zero never spawn.
pub fn spawn(
    spawner: &mut PackageSpawner,
    config: &PackageSpawnerConfig,
    player_x: i64,
    items: &mut Vec<CargoItem>,
    entity: u64,
)
    requires
        config.valid(),
        -CURSOR_LIMIT <= player_x <= CURSOR_LIMIT,
        old(spawner).last_spawned < u32::MAX,
        (old(spawner).last_spawned + 1) * config.distance_apart <= ITEM_LIMIT,
    ensures
        !spec_should_spawn(old(spawner).last_spawned, *config, player_x as int)
            ==> final(spawner).last_spawned == old(spawner).last_spawned && final(items)@
            == old(items)@,
        spec_should_spawn(old(spawner).last_spawned, *config, player_x as int)
            ==> final(spawner).last_spawned == old(spawner).last_spawned + 1 && (exists|p: Preset|
            spec_chance(p) > 0 && final(items)@ == old(items)@.push(
                spec_spawned(
                    entity,
                    (old(spawner).last_spawned + 1) * config.distance_apart,
                    p,
                ),
            )),
{
    proof {
        let n = old(spawner).last_spawned as int;
        let a = config.distance_apart as int;
        crate::fixed::lemma_abs_mul_bound(n, a, u32::MAX as int, SPAN_MAX as int);
        assert((u32::MAX as int) * (SPAN_MAX as int) < 0x4000_0000_0000_0000)
            by (nonlinear_arith);
        assert(n * a <= (n + 1) * a) by (nonlinear_arith)
            requires
                a > 0,
                n >= 0,
        ;
    }
    let last = (spawner.last_spawned as i64) * config.distance_apart;
    if player_x + config.spawn_distance > last {
        spawner.last_spawned = spawner.last_spawned + 1;
        let to_spawn = (spawner.last_spawned as i64) * config.distance_apart;
        let preset = Preset::get_random(&mut spawner.rng);
        let d = preset.apply();
        items.push(
            CargoItem {
                entity,
                position: Vec2i { x: to_spawn, y: 500 },
                z: 0,
                rotation: 0,
                state: ItemState::Pickable,
                frozen: false,
                body: d.body,
                groups: d.groups,
                package: d.package,
                texture: d.texture,
                joint: None,
            },
        );
    }
}

/// Whether `despawn` keeps an item: anchored cargo always stays, and
/// pickable cargo stays until it falls `despawn_distance` behind the
/// vehicle.
pub open spec fn spec_keep_on_despawn(
    it: CargoItem,
    c: PackageSpawnerConfig,
    player_x: int,
) -> bool {
    !(it.state is Pickable && player_x - it.position.x > c.despawn_distance)
}

/// Removes, for good, every pickable item that fell `despawn_distance`
/// behind the vehicle.
pub fn despawn(config: &PackageSpawnerConfig, player_x: i64, packages: &mut Vec<CargoItem>)
    requires
        config.valid(),
        -CURSOR_LIMIT <= player_x <= CURSOR_LIMIT,
        forall|k: int|
            0 <= k < old(packages)@.len() ==> -ITEM_LIMIT
                <= (#[trigger] old(packages)@[k]).position.x <= ITEM_LIMIT,
    ensures
        final(packages)@ == old(packages)@.filter(
            (|it: CargoItem| spec_keep_on_despawn(it, *config, player_x as int)),
        ),
        forall|k: int|
            0 <= k < final(packages)@.len() ==> -ITEM_LIMIT
                <= (#[trigger] final(packages)@[k]).position.x <= ITEM_LIMIT,
{
    let ghost pred = (|it: CargoItem| spec_keep_on_despawn(it, *config, player_x as int));
    let ghost orig = old(packages)@;
    let mut kept: Vec<CargoItem> = Vec::new();
    proof {
        reveal(Seq::filter);
        assert(orig.subrange(0, 0) =~= Seq::<CargoItem>::empty());
        assert(Seq::<CargoItem>::empty().filter(pred) =~= Seq::<CargoItem>::empty());
        assert(packages@ =~= orig.subrange(0, orig.len() as int));
    }
    while packages.len() > 0
        invariant
            config.valid(),
            -CURSOR_LIMIT <= player_x <= CURSOR_LIMIT,
            forall|k: int|
                0 <= k < orig.len() ==> -ITEM_LIMIT <= (#[trigger] orig[k]).position.x
                    <= ITEM_LIMIT,
            pred == (|it: CargoItem| spec_keep_on_despawn(it, *config, player_x as int)),
            packages@.len() <= orig.len(),
            packages@ == orig.subrange(orig.len() - packages@.len(), orig.len() as int),
            kept@ == orig.subrange(0, orig.len() - packages@.len()).filter(pred),
            forall|k: int|
                0 <= k < kept@.len() ==> -ITEM_LIMIT <= (#[trigger] kept@[k]).position.x
                    <= ITEM_LIMIT,
        decreases packages@.len(),
    {
        let ghost done = orig.len() - packages@.len();
        let it = packages.remove(0);
        proof {
            assert(it == orig[done]);
            assert(packages@ =~= orig.subrange(orig.len() - packages@.len(), orig.len() as int));
        }
        let keep = !(matches!(it.state, ItemState::Pickable) && player_x - it.position.x
            > config.despawn_distance);
        proof {
            reveal(Seq::filter);
            let prefix = orig.subrange(0, done);
            let next = orig.subrange(0, done + 1);
            assert(next.drop_last() =~= prefix);
            assert(next.last() == it);
            assert(keep == pred(it));
        }
        if keep {
            kept.push(it);
            proof {
                assert(kept@ =~= orig.subrange(0, done + 1).filter(pred));
            }
        } else {
            proof {
                assert(kept@ =~= orig.subrange(0, done + 1).filter(pred));
            }
        }
    }
    proof {
        assert(orig.subrange(0, orig.len() as int) =~= orig);
    }
    *packages = kept;
}

/// The frozen form of an item: pinned in place.
pub open spec fn spec_frozen(it: CargoItem) -> CargoItem {
    CargoItem { frozen: true, body: BodyType::Fixed, ..it }
}

/// The thawed form of an item: dynamic again.
pub open spec fn spec_thawed(it: CargoItem) -> CargoItem {
    CargoItem { frozen: false, body: BodyType::Dynamic, ..it }
}

/// Whether `freezer` pins an item this tick.
pub open spec fn spec_freezes(it: CargoItem, c: PackageSpawnerConfig, player_x: int) -> bool {
    &&& it.state is Pickable
    &&& !it.frozen
    &&& vstd::math::abs(player_x - it.position.x) > c.freeze_distance
}

/// Whether `defroster` thaws an item this tick.
pub open spec fn spec_thaws(it: CargoItem, c: PackageSpawnerConfig, player_x: int) -> bool {
    &&& it.state is Pickable
    &&& it.frozen
    &&& vstd::math::abs(player_x - it.position.x) < c.freeze_distance
}

/// Pins every unfrozen pickable item farther than `freeze_distance`
/// from the vehicle, in either direction.
pub fn freezer(config: &PackageSpawnerConfig, player_x: i64, packages: &mut Vec<CargoItem>)
    requires
        config.valid(),
        -CURSOR_LIMIT <= player_x <= CURSOR_LIMIT,
        forall|k: int|
            0 <= k < old(packages)@.len() ==> -ITEM_LIMIT
                <= (#[trigger] old(packages)@[k]).position.x <= ITEM_LIMIT,
    ensures
        final(packages)@.len() == old(packages)@.len(),
        forall|k: int|
            0 <= k < old(packages)@.len() ==> final(packages)@[k] == (if spec_freezes(
                #[trigger] old(packages)@[k],
                *config,
                player_x as int,
            ) {
                spec_frozen(old(packages)@[k])
            } else {
                old(packages)@[k]
            }),
{
    let ghost orig = old(packages)@;
    let mut k: usize = 0;
    while k < packages.len()
        invariant
            config.valid(),
            -CURSOR_LIMIT <= player_x <= CURSOR_LIMIT,
            forall|j: int|
                0 <= j < orig.len() ==> -ITEM_LIMIT <= (#[trigger] orig[j]).position.x
                    <= ITEM_LIMIT,
            0 <= k <= orig.len(),
            packages@.len() == orig.len(),
            forall|j: int|
                0 <= j < k ==> packages@[j] == (if spec_freezes(
                    #[trigger] orig[j],
                    *config,
                    player_x as int,
                ) {
                    spec_frozen(orig[j])
                } else {
                    orig[j]
                }),
            forall|j: int| k <= j < orig.len() ==> #[trigger] packages@[j] == orig[j],
        decreases orig.len() - k,
    {
        let it = packages[k];
        let d = if player_x >= it.position.x {
            player_x - it.position.x
        } else {
            it.position.x - player_x
        };
        if matches!(it.state, ItemState::Pickable) && !it.frozen && d > config.freeze_distance {
            packages.set(
                k,
                CargoItem { frozen: true, body: BodyType::Fixed, ..it },
            );
        }
        k = k + 1;
    }
}

/// Thaws every frozen pickable item back within `freeze_distance` of
/// the vehicle.
pub fn defroster(config: &PackageSpawnerConfig, player_x: i64, packages: &mut Vec<CargoItem>)
    requires
        config.valid(),
        -CURSOR_LIMIT <= player_x <= CURSOR_LIMIT,
        forall|k: int|
            0 <= k < old(packages)@.len() ==> -ITEM_LIMIT
                <= (#[trigger] old(packages)@[k]).position.x <= ITEM_LIMIT,
    ensures
        final(packages)@.len() == old(packages)@.len(),
        forall|k: int|
            0 <= k < old(packages)@.len() ==> final(packages)@[k] == (if spec_thaws(
                #[trigger] old(packages)@[k],
                *config,
                player_x as int,
            ) {
                spec_thawed(old(packages)@[k])
            } else {
                old(packages)@[k]
            }),
{
    let ghost orig = old(packages)@;
    let mut k: usize = 0;
    while k < packages.len()
        invariant
            config.valid(),
            -CURSOR_LIMIT <= player_x <= CURSOR_LIMIT,
            forall|j: int|
                0 <= j < orig.len() ==> -ITEM_LIMIT <= (#[trigger] orig[j]).position.x
                    <= ITEM_LIMIT,
            0 <= k <= orig.len(),
            packages@.len() == orig.len(),
            forall|j: int|
                0 <= j < k ==> packages@[j] == (if spec_thaws(
                    #[trigger] orig[j],
                    *config,
                    player_x as int,
                ) {
                    spec_thawed(orig[j])
                } else {
                    orig[j]
                }),
            forall|j: int| k <= j < orig.len() ==> #[trigger] packages@[j] == orig[j],
        decreases orig.len() - k,
    {
        let it = packages[k];
        let d = if player_x >= it.position.x {
            player_x - it.position.x
        } else {
            it.position.x - player_x
        };
        if matches!(it.state, ItemState::Pickable) && it.frozen && d < config.freeze_distance {
            packages.set(
                k,
                CargoItem { frozen: false, body: BodyType::Dynamic, ..it },
            );
        }
        k = k + 1;
    }
}

/// The despawn pass as a sequence transform.
pub open spec fn spec_despawn_pass(
    s: Seq<CargoItem>,
    c: PackageSpawnerConfig,
    player_x: int,
) -> Seq<CargoItem> {
    s.filter((|it: CargoItem| spec_keep_on_despawn(it, c, player_x)))
}

/// The freezer pass as a sequence transform.
pub open spec fn spec_freeze_pass(
    s: Seq<CargoItem>,
    c: PackageSpawnerConfig,
    player_x: int,
) -> Seq<CargoItem> {
    Seq::new(
        s.len(),
        |k: int|
            if spec_freezes(s[k], c, player_x) {
                spec_frozen(s[k])
            } else {
                s[k]
            },
    )
}

/// The defroster pass as a sequence transform.
pub open spec fn spec_defrost_pass(
    s: Seq<CargoItem>,
    c: PackageSpawnerConfig,
    player_x: int,
) -> Seq<CargoItem> {
    Seq::new(
        s.len(),
        |k: int|
            if spec_thaws(s[k], c, player_x) {
                spec_thawed(s[k])
            } else {
                s[k]
            },
    )
}

/// The cargo subsystem: spawning configuration and state, advanced by
/// one `tick` per frame running the four director passes.
#[derive(Debug)]
pub struct PackagePlugin {
    pub config: PackageSpawnerConfig,
    pub spawner: PackageSpawner,
}

impl PackagePlugin {
    /// Starts the subsystem with its default distances and a fresh
    /// spawner.
    pub fn build() -> (r: PackagePlugin)
        ensures
            r.config == (PackageSpawnerConfig {
                distance_apart: 1024i64,
                spawn_distance: 2048i64,
                despawn_distance: 8192i64,
                freeze_distance: 3072i64,
            }),
            r.config.valid(),
            r.spawner.last_spawned == 0,
    {
        PackagePlugin { config: PackageSpawnerConfig::default(), spawner: PackageSpawner::default() }
    }

    /// One frame of the cargo director: spawn, despawn, freeze, thaw.
    /// The passes are order-insensitive; this runs them in the order
    /// above, and the result is their composition exactly.
    pub fn tick(&mut self, player_x: i64, items: &mut Vec<CargoItem>, entity: u64)
        requires
            old(self).config.valid(),
            -CURSOR_LIMIT <= player_x <= CURSOR_LIMIT,
            old(self).spawner.last_spawned < u32::MAX,
            (old(self).spawner.last_spawned + 1) * old(self).config.distance_apart <= ITEM_LIMIT,
            forall|k: int|
                0 <= k < old(items)@.len() ==> -ITEM_LIMIT
                    <= (#[trigger] old(items)@[k]).position.x <= ITEM_LIMIT,
        ensures
            final(self).config == old(self).config,
            !spec_should_spawn(old(self).spawner.last_spawned, old(self).config, player_x as int)
                ==> final(self).spawner.last_spawned == old(self).spawner.last_spawned
                && final(items)@ == spec_defrost_pass(
                spec_freeze_pass(
                    spec_despawn_pass(old(items)@, old(self).config, player_x as int),
                    old(self).config,
                    player_x as int,
                ),
                old(self).config,
                player_x as int,
            ),
            spec_should_spawn(old(self).spawner.last_spawned, old(self).config, player_x as int)
                ==> final(self).spawner.last_spawned == old(self).spawner.last_spawned + 1 && (
            exists|p: Preset|
                spec_chance(p) > 0 && final(items)@ == spec_defrost_pass(
                    spec_freeze_pass(
                        spec_despawn_pass(
                            old(items)@.push(
                                spec_spawned(
                                    entity,
                                    (old(self).spawner.last_spawned + 1)
                                        * old(self).config.distance_apart,
                                    p,
                                ),
                            ),
                            old(self).config,
                            player_x as int,
                        ),
                        old(self).config,
                        player_x as int,
                    ),
                    old(self).config,
                    player_x as int,
                )),
    {
        let ghost cfg = self.config;
        let ghost last0 = self.spawner.last_spawned;
        spawn(&mut self.spawner, &self.config, player_x, items, entity);
        let ghost after_spawn = items@;
        proof {
            if spec_should_spawn(last0, cfg, player_x as int) {
                let p = choose|p: Preset|
                    spec_chance(p) > 0 && after_spawn == old(items)@.push(
                        spec_spawned(entity, (last0 + 1) * cfg.distance_apart, p),
                    );
                assert(spec_spawned(entity, (last0 + 1) * cfg.distance_apart, p).position.x == (
                last0 + 1) * cfg.distance_apart);
            }
        }
        despawn(&self.config, player_x, items);
        let ghost after_despawn = items@;
        freezer(&self.config, player_x, items);
        let ghost after_freeze = items@;
        proof {
            assert(after_freeze =~= spec_freeze_pass(after_despawn, cfg, player_x as int));
            assert forall|k: int| 0 <= k < after_freeze.len() implies -ITEM_LIMIT <= (
            #[trigger] after_freeze[k]).position.x <= ITEM_LIMIT by {
                assert(after_freeze[k].position == after_despawn[k].position);
            }
        }
        defroster(&self.config, player_x, items);
        proof {
            assert(items@ =~= spec_defrost_pass(after_freeze, cfg, player_x as int));
        }
    }
}

} // verus!
