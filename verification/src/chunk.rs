//! Terrain chunk streaming.
//!
//! The world is split into fixed-width chunks keyed by an integer index;
//! chunk `i` is centred at `i * x_size`.  Every tick, chunks are
//! generated for every index inside a loader's generation window and
//! removed once they are farther than the removal distance from every
//! loader.  The removal distance exceeds the generation distance, so a
//! freshly generated chunk is never dropped right away (hysteresis).

use vstd::prelude::*;

use crate::fixed::POS_LIMIT;
use crate::groups::{CollisionGroups, LOOSE_ITEMS, PLAYER, SOLID_TERRAIN};
use crate::height::{ChunkGen, ChunkGenConfig};
use crate::mesh::{generate_meshes, geometry_wf, ChunkGeometry};

verus! {

/// Bound on a chunk's width.
pub const WIDTH_MAX: i64 = 1048576;

/// Bound on the generation and removal distances.
pub const DIST_MAX: i64 = 1073741824;

/// Bound on the number of height probes per chunk.
pub const PROBES_MAX: u32 = 65536;

/// Geometry and streaming parameters of the chunk manager.
#[derive(Clone, Copy, Debug, PartialEq, Eq, Structural)]
pub struct ChunkConfig {
    /// Height samples per chunk; at least 2, since the sample step is
    /// `x_size / (probes - 1)`.
    pub probes: u32,
    /// Width of one chunk, in world units.
    pub x_size: i64,
    /// Radius around a loader inside which chunks must exist.
    pub gen_distance: i64,
    /// Radius beyond which chunks are removed; must exceed
    /// `gen_distance`.
    pub rem_distance: i64,
}

/// Rejected chunk configurations.
#[derive(Clone, Copy, Debug, PartialEq, Eq, Structural)]
pub enum ChunkConfigError {
    /// Fewer than two probes: the sample step would divide by zero.
    TooFewProbes,
    /// More probes than the geometry builder accepts.
    TooManyProbes,
    /// A chunk width outside `1..=WIDTH_MAX`.
    InvalidWidth,
    /// A generation or removal distance outside `1..=DIST_MAX`.
    InvalidDistance,
    /// A removal distance not above the generation distance: chunks at
    /// the window edge would thrash.
    NoHysteresis,
}

impl ChunkConfigError {
    /// A human-readable account of the rejection.
    pub fn describe(&self) -> &'static str {
        match self {
            ChunkConfigError::TooFewProbes => "chunk config: fewer than two height probes",
            ChunkConfigError::TooManyProbes => "chunk config: too many height probes",
            ChunkConfigError::InvalidWidth => "chunk config: chunk width out of range",
            ChunkConfigError::InvalidDistance => "chunk config: streaming distance out of range",
            ChunkConfigError::NoHysteresis => "chunk config: removal distance must exceed generation distance",
        }
    }
}

impl ChunkConfig {
    pub open spec fn valid(self) -> bool {
        &&& 2 <= self.probes <= PROBES_MAX
        &&& 0 < self.x_size <= WIDTH_MAX
        &&& 0 < self.gen_distance
        &&& self.gen_distance < self.rem_distance <= DIST_MAX
    }

    /// Validates a configuration, rejecting degenerate numbers before
    /// they can surface as runtime artifacts.
    pub fn new(probes: u32, x_size: i64, gen_distance: i64, rem_distance: i64) -> (r: Result<
        ChunkConfig,
        ChunkConfigError,
    >)
        ensures
            r is Ok <==> (ChunkConfig { probes, x_size, gen_distance, rem_distance }).valid(),
            r is Ok ==> r->Ok_0 == (ChunkConfig { probes, x_size, gen_distance, rem_distance }),
            probes < 2 ==> r == Result::<ChunkConfig, ChunkConfigError>::Err(
                ChunkConfigError::TooFewProbes,
            ),
            probes > PROBES_MAX ==> r == Result::<ChunkConfig, ChunkConfigError>::Err(
                ChunkConfigError::TooManyProbes,
            ),
            2 <= probes <= PROBES_MAX && !(0 < x_size <= WIDTH_MAX) ==> r == Result::<
                ChunkConfig,
                ChunkConfigError,
            >::Err(ChunkConfigError::InvalidWidth),
            2 <= probes <= PROBES_MAX && 0 < x_size <= WIDTH_MAX && !(0 < gen_distance && 0
                < rem_distance <= DIST_MAX) ==> r == Result::<
                ChunkConfig,
                ChunkConfigError,
            >::Err(ChunkConfigError::InvalidDistance),
            2 <= probes <= PROBES_MAX && 0 < x_size <= WIDTH_MAX && 0 < gen_distance && 0
                < rem_distance <= DIST_MAX && gen_distance >= rem_distance ==> r == Result::<
                ChunkConfig,
                ChunkConfigError,
            >::Err(ChunkConfigError::NoHysteresis),
    {
        if probes < 2 {
            Err(ChunkConfigError::TooFewProbes)
        } else if probes > PROBES_MAX {
            Err(ChunkConfigError::TooManyProbes)
        } else if x_size <= 0 || x_size > WIDTH_MAX {
            Err(ChunkConfigError::InvalidWidth)
        } else if gen_distance <= 0 || rem_distance <= 0 || rem_distance > DIST_MAX {
            Err(ChunkConfigError::InvalidDistance)
        } else if gen_distance >= rem_distance {
            Err(ChunkConfigError::NoHysteresis)
        } else {
            Ok(ChunkConfig { probes, x_size, gen_distance, rem_distance })
        }
    }
}

impl Default for ChunkConfig {
    fn default() -> (r: Self)
        ensures
            r == (ChunkConfig {
                probes: 33u32,
                x_size: 1024i64,
                gen_distance: 4096i64,
                rem_distance: 8192i64,
            }),
            r.valid(),
    {
        ChunkConfig { probes: 33, x_size: 1024, gen_distance: 4096, rem_distance: 8192 }
    }
}

/// An entity whose position drives chunk streaming (the camera).
#[derive(Clone, Copy, Debug, PartialEq, Eq, Structural)]
pub struct Chunkloader {
    pub x: i64,
}

/// One generated terrain segment: a static body in the terrain collision
/// category, carrying its heightfield and render geometry.
#[derive(Debug)]
pub struct Chunk {
    pub index: i64,
    pub x: i64,
    pub groups: CollisionGroups,
    pub geometry: ChunkGeometry,
}

/// Bound on a loader's position; keeps every window index position
/// within `POS_LIMIT`.
pub const LOADER_LIMIT: i64 = 0x80_0000_0000;

/// Lowest chunk index of the generation window around `p`.
pub open spec fn window_lo(p: int, c: ChunkConfig) -> int {
    (p - c.gen_distance) / (c.x_size as int)
}

/// Highest chunk index of the generation window around `p` (the ceiling
/// of `(p + gen_distance) / x_size`).
pub open spec fn window_hi(p: int, c: ChunkConfig) -> int {
    (p + c.gen_distance + c.x_size - 1) / (c.x_size as int)
}

/// Whether chunk index `i` lies in the generation window around `p`.
pub open spec fn in_window(p: int, c: ChunkConfig, i: int) -> bool {
    window_lo(p, c) <= i <= window_hi(p, c)
}

/// Whether some chunk in `s` has index `i`.
pub open spec fn contains_index(s: Seq<Chunk>, i: int) -> bool {
    exists|k: int| 0 <= k < s.len() && (#[trigger] s[k]).index == i
}

/// At most one chunk per index.
pub open spec fn unique_indices(s: Seq<Chunk>) -> bool {
    forall|k1: int, k2: int|
        0 <= k1 < k2 < s.len() ==> (#[trigger] s[k1]).index != (#[trigger] s[k2]).index
}

/// What every generated chunk satisfies: it sits at `index * x_size`,
/// inside the world bounds, in the terrain collision category, with
/// geometry derived from the height field at its position.
pub open spec fn chunk_wf(ch: Chunk, c: ChunkConfig, g: ChunkGen) -> bool {
    &&& ch.x == ch.index * c.x_size
    &&& -POS_LIMIT <= ch.x
    &&& ch.x + c.x_size <= POS_LIMIT
    &&& ch.groups == (CollisionGroups {
        memberships: SOLID_TERRAIN,
        filters: LOOSE_ITEMS | PLAYER,
    })
    &&& geometry_wf(ch.geometry, c, g, ch.x as int)
}

/// Whether `ch` is within the removal distance of some loader.
pub open spec fn near_some_loader(ch: Chunk, loaders: Seq<Chunkloader>, c: ChunkConfig) -> bool {
    exists|k: int|
        0 <= k < loaders.len() && vstd::math::abs(ch.x - (#[trigger] loaders[k]).x)
            <= c.rem_distance
}

/// Positions of window indices: a chunk generated for the window around
/// `p` is centred within `gen_distance + x_size` of `p`.
pub proof fn lemma_window_index_bounds(c: ChunkConfig, p: int, i: int)
    requires
        c.valid(),
        in_window(p, c, i),
    ensures
        p - c.gen_distance - c.x_size < i * c.x_size <= p + c.gen_distance + c.x_size - 1,
{
    let w = c.x_size as int;
    let lo = window_lo(p, c);
    let hi = window_hi(p, c);
    vstd::arithmetic::div_mod::lemma_fundamental_div_mod(p - c.gen_distance, w);
    vstd::arithmetic::div_mod::lemma_mod_bound(p - c.gen_distance, w);
    vstd::arithmetic::div_mod::lemma_fundamental_div_mod(p + c.gen_distance + w - 1, w);
    vstd::arithmetic::div_mod::lemma_mod_bound(p + c.gen_distance + w - 1, w);
    assert(p - c.gen_distance - w < lo * w && hi * w <= p + c.gen_distance + w - 1
        && lo * w <= i * w <= hi * w) by (nonlinear_arith)
        requires
            p - c.gen_distance == w * lo + (p - c.gen_distance) % w,
            0 <= (p - c.gen_distance) % w < w,
            p + c.gen_distance + w - 1 == w * hi + (p + c.gen_distance + w - 1) % w,
            0 <= (p + c.gen_distance + w - 1) % w < w,
            lo <= i <= hi,
            0 < w,
    ;
}

/// Exactly one chunk: wherever an index is covered and indices are
/// unique — as they are after every generation pass — the chunk with
/// that index is unique.
pub proof fn lemma_exactly_one_chunk(s: Seq<Chunk>, i: int)
    requires
        unique_indices(s),
        contains_index(s, i),
    ensures
        exists|k: int|
            0 <= k < s.len() && (#[trigger] s[k]).index == i && (forall|k2: int|
                0 <= k2 < s.len() && (#[trigger] s[k2]).index == i ==> k2 == k),
{
    let k = choose|k: int| 0 <= k < s.len() && (#[trigger] s[k]).index == i;
    assert forall|k2: int| 0 <= k2 < s.len() && (#[trigger] s[k2]).index == i implies k2 == k by {
        if k2 < k {
            assert(s[k2].index != s[k].index);
        } else if k < k2 {
            assert(s[k].index != s[k2].index);
        }
    }
}

/// Hysteresis: a chunk inside the generation window around `p` stays
/// within the removal distance of a loader that has moved from `p` to
/// `p2`, provided the move left a margin of one chunk width.
pub proof fn lemma_hysteresis(c: ChunkConfig, p: int, p2: int, i: int)
    requires
        c.valid(),
        in_window(p, c, i),
        vstd::math::abs(p2 - p) + c.gen_distance + c.x_size <= c.rem_distance,
    ensures
        vstd::math::abs(i * c.x_size - p2) <= c.rem_distance,
{
    lemma_window_index_bounds(c, p, i);
}

/// The absolute x distance between two positions.
pub fn calculate_distance(a: i64, b: i64) -> (d: i64)
    requires
        -POS_LIMIT <= a <= POS_LIMIT,
        -POS_LIMIT <= b <= POS_LIMIT,
    ensures
        d == vstd::math::abs(a - b),
{
    if a >= b {
        a - b
    } else {
        b - a
    }
}

/// Whether some chunk with index `i` already exists.
fn contains_index_exec(chunks: &Vec<Chunk>, i: i64) -> (r: bool)
    ensures
        r == contains_index(chunks@, i as int),
{
    let mut k: usize = 0;
    while k < chunks.len()
        invariant
            0 <= k <= chunks@.len(),
            forall|j: int| 0 <= j < k ==> (#[trigger] chunks@[j]).index != i,
        decreases chunks@.len() - k,
    {
        if chunks[k].index == i {
            return true;
        }
        k = k + 1;
    }
    false
}

/// Whether `ch` lies within the removal distance of any loader.
fn near_any(ch: &Chunk, loaders: &Vec<Chunkloader>, config: &ChunkConfig) -> (r: bool)
    requires
        config.valid(),
        -POS_LIMIT <= ch.x <= POS_LIMIT,
        forall|k: int|
            0 <= k < loaders@.len() ==> -LOADER_LIMIT <= (#[trigger] loaders@[k]).x
                <= LOADER_LIMIT,
    ensures
        r == near_some_loader(*ch, loaders@, *config),
{
    let mut k: usize = 0;
    while k < loaders.len()
        invariant
            config.valid(),
            -POS_LIMIT <= ch.x <= POS_LIMIT,
            forall|j: int|
                0 <= j < loaders@.len() ==> -LOADER_LIMIT <= (#[trigger] loaders@[j]).x
                    <= LOADER_LIMIT,
            0 <= k <= loaders@.len(),
            forall|j: int|
                0 <= j < k ==> vstd::math::abs(ch.x - (#[trigger] loaders@[j]).x)
                    > config.rem_distance,
        decreases loaders@.len() - k,
    {
        let d = calculate_distance(ch.x, loaders[k].x);
        if d <= config.rem_distance {
            return true;
        }
        k = k + 1;
    }
    false
}

/// One chunk stays only if some chunk of `s2` extends `s1` unchanged.
proof fn lemma_contains_monotone(s1: Seq<Chunk>, s2: Seq<Chunk>)
    requires
        s1.len() <= s2.len(),
        forall|k: int| 0 <= k < s1.len() ==> s2[k] == s1[k],
    ensures
        forall|i: int| contains_index(s1, i) ==> contains_index(s2, i),
{
    assert forall|i: int| contains_index(s1, i) implies contains_index(s2, i) by {
        let k = choose|k: int| 0 <= k < s1.len() && (#[trigger] s1[k]).index == i;
        assert(0 <= k < s2.len() && s2[k].index == i);
    }
}

/// Removes every chunk that is farther than the removal distance from
/// all loaders.  With no loaders, nothing is removed.
pub fn remove_chunks(chunks: &mut Vec<Chunk>, loaders: &Vec<Chunkloader>, config: &ChunkConfig)
    requires
        config.valid(),
        forall|k: int|
            0 <= k < old(chunks)@.len() ==> -POS_LIMIT <= (#[trigger] old(chunks)@[k]).x
                <= POS_LIMIT,
        forall|k: int|
            0 <= k < loaders@.len() ==> -LOADER_LIMIT <= (#[trigger] loaders@[k]).x
                <= LOADER_LIMIT,
    ensures
        loaders@.len() == 0 ==> final(chunks)@ == old(chunks)@,
        loaders@.len() > 0 ==> final(chunks)@ == old(chunks)@.filter(
            (|ch: Chunk| near_some_loader(ch, loaders@, *config)),
        ),
{
    if loaders.len() == 0 {
        return ;
    }
    let ghost pred = (|ch: Chunk| near_some_loader(ch, loaders@, *config));
    let ghost orig = old(chunks)@;
    let mut kept: Vec<Chunk> = Vec::new();
    proof {
        reveal(Seq::filter);
        assert(orig.subrange(0, 0) =~= Seq::<Chunk>::empty());
        assert(Seq::<Chunk>::empty().filter(pred) =~= Seq::<Chunk>::empty());
        assert(chunks@ =~= orig.subrange(0, orig.len() as int));
    }
    while chunks.len() > 0
        invariant
            config.valid(),
            loaders@.len() > 0,
            forall|k: int| 0 <= k < orig.len() ==> -POS_LIMIT <= (#[trigger] orig[k]).x <= POS_LIMIT,
            forall|k: int|
                0 <= k < loaders@.len() ==> -LOADER_LIMIT <= (#[trigger] loaders@[k]).x
                    <= LOADER_LIMIT,
            pred == (|ch: Chunk| near_some_loader(ch, loaders@, *config)),
            chunks@.len() <= orig.len(),
            chunks@ == orig.subrange(orig.len() - chunks@.len(), orig.len() as int),
            kept@ == orig.subrange(0, orig.len() - chunks@.len()).filter(pred),
        decreases chunks@.len(),
    {
        let ghost done = orig.len() - chunks@.len();
        let ch = chunks.remove(0);
        proof {
            assert(ch == orig[done]);
            assert(chunks@ =~= orig.subrange(orig.len() - chunks@.len(), orig.len() as int));
            assert(-POS_LIMIT <= ch.x <= POS_LIMIT);
        }
        let keep = near_any(&ch, loaders, config);
        proof {
            reveal(Seq::filter);
            let prefix = orig.subrange(0, done);
            let next = orig.subrange(0, done + 1);
            assert(next.drop_last() =~= prefix);
            assert(next.last() == ch);
            assert(keep == pred(ch));
        }
        if keep {
            kept.push(ch);
            proof {
                assert(kept@ =~= orig.subrange(0, done + 1).filter(pred));
            }
        } else {
            proof {
                assert(kept@ =~= orig.subrange(0, done + 1).filter(pred));
            }
        }
    }
    proof {
        assert(orig.subrange(0, orig.len() as int) =~= orig);
    }
    *chunks = kept;
}

/// Synthesizes the chunk with index `i`: its position, collision
/// category, heightfield and render geometry.
pub fn generate_chunk(config: &ChunkConfig, gen: &ChunkGen, i: i64) -> (ch: Chunk)
    requires
        config.valid(),
        gen.well_formed(),
        -POS_LIMIT <= i * config.x_size,
        i * config.x_size + config.x_size <= POS_LIMIT,
    ensures
        ch.index == i,
        chunk_wf(ch, *config, *gen),
{
    let x = i * config.x_size;
    let geometry = generate_meshes(config, gen, x);
    Chunk {
        index: i,
        x,
        groups: CollisionGroups::new(SOLID_TERRAIN, LOOSE_ITEMS | PLAYER),
        geometry,
    }
}

/// Generates a chunk for every index of every loader's window that has
/// no chunk yet.  Existing chunks are kept untouched, no index is
/// generated twice, and afterwards every window index has a chunk.
pub fn generate_chunks(
    chunks: &mut Vec<Chunk>,
    loaders: &Vec<Chunkloader>,
    config: &ChunkConfig,
    gen: &ChunkGen,
)
    requires
        config.valid(),
        gen.well_formed(),
        unique_indices(old(chunks)@),
        forall|k: int|
            0 <= k < loaders@.len() ==> -LOADER_LIMIT <= (#[trigger] loaders@[k]).x
                <= LOADER_LIMIT,
    ensures
        unique_indices(final(chunks)@),
        old(chunks)@.len() <= final(chunks)@.len(),
        forall|k: int| 0 <= k < old(chunks)@.len() ==> final(chunks)@[k] == old(chunks)@[k],
        forall|k: int|
            old(chunks)@.len() <= k < final(chunks)@.len() ==> chunk_wf(
                #[trigger] final(chunks)@[k],
                *config,
                *gen,
            ) && !contains_index(old(chunks)@, final(chunks)@[k].index as int) && (exists|li: int|
                0 <= li < loaders@.len() && #[trigger] in_window(
                    loaders@[li].x as int,
                    *config,
                    final(chunks)@[k].index as int,
                )),
        forall|li: int, idx: int|
            0 <= li < loaders@.len() && #[trigger] in_window(loaders@[li].x as int, *config, idx)
                ==> contains_index(final(chunks)@, idx),
{
    let ghost orig = old(chunks)@;
    let mut li: usize = 0;
    while li < loaders.len()
        invariant
            config.valid(),
            gen.well_formed(),
            forall|k: int|
                0 <= k < loaders@.len() ==> -LOADER_LIMIT <= (#[trigger] loaders@[k]).x
                    <= LOADER_LIMIT,
            0 <= li <= loaders@.len(),
            unique_indices(chunks@),
            orig.len() <= chunks@.len(),
            forall|k: int| 0 <= k < orig.len() ==> chunks@[k] == orig[k],
            forall|k: int|
                orig.len() <= k < chunks@.len() ==> chunk_wf(
                    #[trigger] chunks@[k],
                    *config,
                    *gen,
                ) && !contains_index(orig, chunks@[k].index as int) && (exists|lj: int|
                    0 <= lj < loaders@.len() && #[trigger] in_window(
                        loaders@[lj].x as int,
                        *config,
                        chunks@[k].index as int,
                    )),
            forall|lj: int, idx: int|
                0 <= lj < li && #[trigger] in_window(loaders@[lj].x as int, *config, idx)
                    ==> contains_index(chunks@, idx),
        decreases loaders@.len() - li,
    {
        let p = loaders[li].x;
        let a_lo = p - config.gen_distance;
        let a_hi = p + config.gen_distance + config.x_size - 1;
        proof {
            crate::fixed::lemma_div_magnitude(a_lo as int, config.x_size as int);
            crate::fixed::lemma_div_magnitude(a_hi as int, config.x_size as int);
        }
        let lo = match a_lo.checked_div_euclid(config.x_size) {
            Some(q) => q,
            None => 0,
        };
        let hi = match a_hi.checked_div_euclid(config.x_size) {
            Some(q) => q,
            None => 0,
        };
        proof {
            assert(lo == window_lo(p as int, *config));
            assert(hi == window_hi(p as int, *config));
            vstd::arithmetic::div_mod::lemma_div_is_ordered(
                p - config.gen_distance,
                p + config.gen_distance + config.x_size - 1,
                config.x_size as int,
            );
        }
        let mut i: i64 = lo;
        while i <= hi
            invariant
                config.valid(),
                gen.well_formed(),
                forall|k: int|
                    0 <= k < loaders@.len() ==> -LOADER_LIMIT <= (#[trigger] loaders@[k]).x
                        <= LOADER_LIMIT,
                0 <= li < loaders@.len(),
                p == loaders@[li as int].x,
                lo == window_lo(p as int, *config),
                hi == window_hi(p as int, *config),
                lo <= i <= hi + 1,
                unique_indices(chunks@),
                orig.len() <= chunks@.len(),
                forall|k: int| 0 <= k < orig.len() ==> chunks@[k] == orig[k],
                forall|k: int|
                    orig.len() <= k < chunks@.len() ==> chunk_wf(
                        #[trigger] chunks@[k],
                        *config,
                        *gen,
                    ) && !contains_index(orig, chunks@[k].index as int) && (exists|lj: int|
                        0 <= lj < loaders@.len() && #[trigger] in_window(
                            loaders@[lj].x as int,
                            *config,
                            chunks@[k].index as int,
                        )),
                forall|lj: int, idx: int|
                    0 <= lj < li && #[trigger] in_window(loaders@[lj].x as int, *config, idx)
                        ==> contains_index(chunks@, idx),
                forall|idx: int| lo <= idx < i ==> contains_index(chunks@, idx),
            decreases hi + 1 - i,
        {
            proof {
                lemma_window_index_bounds(*config, p as int, i as int);
            }
            let ghost before = chunks@;
            if !contains_index_exec(chunks, i) {
                let ch = generate_chunk(config, gen, i);
                chunks.push(ch);
                proof {
                    lemma_contains_monotone(before, chunks@);
                    lemma_contains_monotone(orig, before);
                    assert(chunks@[chunks@.len() - 1] == ch);
                    assert(contains_index(chunks@, i as int));
                    assert forall|k1: int, k2: int| 0 <= k1 < k2 < chunks@.len() implies (
                    #[trigger] chunks@[k1]).index != (#[trigger] chunks@[k2]).index by {
                        if k2 == chunks@.len() - 1 {
                            assert(!contains_index(before, i as int));
                            assert(before[k1] == chunks@[k1]);
                        }
                    }
                    assert(in_window(loaders@[li as int].x as int, *config, ch.index as int));
                }
            } else {
                proof {
                    assert(contains_index(chunks@, i as int));
                }
            }
            i = i + 1;
        }
        proof {
            assert forall|lj: int, idx: int|
                0 <= lj < li + 1 && #[trigger] in_window(loaders@[lj].x as int, *config, idx)
                implies contains_index(chunks@, idx) by {
                if lj == li {
                    assert(window_lo(p as int, *config) <= idx < i);
                }
            }
        }
        li = li + 1;
    }
}

/// Despawns every chunk.  Re-rolling the height field only after this
/// ran avoids visible seams between old and new terrain.
pub fn clear_chunks(chunks: &mut Vec<Chunk>)
    ensures
        final(chunks)@.len() == 0,
{
    chunks.truncate(0);
}

/// Every chunk of a filtered sequence is a chunk of the original.
proof fn lemma_filter_membership(s: Seq<Chunk>, pred: spec_fn(Chunk) -> bool)
    ensures
        forall|k: int|
            0 <= k < s.filter(pred).len() ==> s.contains(#[trigger] s.filter(pred)[k]),
    decreases s.len(),
{
    reveal(Seq::filter);
    if s.len() > 0 {
        let d = s.drop_last();
        lemma_filter_membership(d, pred);
        assert forall|k: int|
            0 <= k < s.filter(pred).len() implies s.contains(#[trigger] s.filter(pred)[k]) by {
            if pred(s.last()) && k == s.filter(pred).len() - 1 {
                assert(s[s.len() - 1] == s.filter(pred)[k]);
            } else {
                assert(s.filter(pred)[k] == d.filter(pred)[k]);
                assert(d.contains(d.filter(pred)[k]));
                let j = choose|j: int| 0 <= j < d.len() && d[j] == d.filter(pred)[k];
                assert(s[j] == s.filter(pred)[k]);
            }
        }
    }
}

/// Filtering keeps chunk indices unique.
proof fn lemma_filter_unique(s: Seq<Chunk>, pred: spec_fn(Chunk) -> bool)
    requires
        unique_indices(s),
    ensures
        unique_indices(s.filter(pred)),
    decreases s.len(),
{
    reveal(Seq::filter);
    if s.len() > 0 {
        let d = s.drop_last();
        assert(unique_indices(d));
        lemma_filter_unique(d, pred);
        lemma_filter_membership(d, pred);
        let f = s.filter(pred);
        assert forall|k1: int, k2: int| 0 <= k1 < k2 < f.len() implies (#[trigger] f[k1]).index
            != (#[trigger] f[k2]).index by {
            if pred(s.last()) && k2 == f.len() - 1 {
                assert(f[k2] == s[s.len() - 1]);
                assert(f[k1] == d.filter(pred)[k1]);
                assert(d.contains(d.filter(pred)[k1]));
                let j = choose|j: int| 0 <= j < d.len() && d[j] == d.filter(pred)[k1];
                assert(s[j] == f[k1]);
                assert(s[j].index != s[s.len() - 1].index);
            } else {
                assert(f[k1] == d.filter(pred)[k1]);
                assert(f[k2] == d.filter(pred)[k2]);
            }
        }
    }
}

/// The chunk streaming subsystem: configuration, the sampled height
/// field and the live chunk set, advanced once per frame by `tick`.
#[derive(Debug)]
pub struct ChunkPlugin {
    pub gen_config: ChunkGenConfig,
    pub config: ChunkConfig,
    pub gen: ChunkGen,
    pub chunks: Vec<Chunk>,
}

impl ChunkPlugin {
    pub open spec fn wf(self) -> bool {
        &&& self.config.valid()
        &&& self.gen.well_formed()
        &&& unique_indices(self.chunks@)
        &&& forall|k: int|
            0 <= k < self.chunks@.len() ==> chunk_wf(
                #[trigger] self.chunks@[k],
                self.config,
                self.gen,
            )
    }

    /// Starts the subsystem as the world does: default configuration, a
    /// freshly sampled height field, and no chunks yet.
    pub fn build() -> (r: ChunkPlugin)
        ensures
            r.wf(),
            r.chunks@.len() == 0,
            r.config == (ChunkConfig {
                probes: 33u32,
                x_size: 1024i64,
                gen_distance: 4096i64,
                rem_distance: 8192i64,
            }),
    {
        let gen_config = ChunkGenConfig::default();
        let mut gen = ChunkGen::default();
        gen.reset(&gen_config);
        ChunkPlugin { gen_config, config: ChunkConfig::default(), gen, chunks: Vec::new() }
    }

    /// Clears every chunk and re-rolls the height field: the explicit
    /// regenerate command.  Clearing first avoids seams between chunks
    /// generated before and after the re-roll.
    pub fn regenerate(&mut self)
        requires
            old(self).gen_config.valid(),
        ensures
            final(self).wf() <== old(self).config.valid(),
            final(self).chunks@.len() == 0,
            final(self).config == old(self).config,
            final(self).gen_config == old(self).gen_config,
    {
        clear_chunks(&mut self.chunks);
        let cfg = self.gen_config;
        self.gen.reset(&cfg);
    }

    /// One streaming tick: drop chunks far from every loader, then
    /// generate the missing ones inside every loader's window.  After
    /// the tick every window index has exactly one chunk; a chunk that
    /// stayed near some loader was not dropped; and — whenever the
    /// generation window cannot outreach the removal radius — a chunk
    /// far from every loader is gone.
    pub fn tick(&mut self, loaders: &Vec<Chunkloader>)
        requires
            old(self).wf(),
            forall|k: int|
                0 <= k < loaders@.len() ==> -LOADER_LIMIT <= (#[trigger] loaders@[k]).x
                    <= LOADER_LIMIT,
        ensures
            final(self).wf(),
            final(self).config == old(self).config,
            final(self).gen == old(self).gen,
            final(self).gen_config == old(self).gen_config,
            forall|li: int, idx: int|
                0 <= li < loaders@.len() && #[trigger] in_window(
                    loaders@[li].x as int,
                    final(self).config,
                    idx,
                ) ==> contains_index(final(self).chunks@, idx),
            forall|k: int|
                0 <= k < old(self).chunks@.len() && near_some_loader(
                    #[trigger] old(self).chunks@[k],
                    loaders@,
                    old(self).config,
                ) ==> contains_index(final(self).chunks@, old(self).chunks@[k].index as int),
            forall|k: int|
                0 <= k < old(self).chunks@.len() && loaders@.len() > 0 && old(
                    self,
                ).config.gen_distance + old(self).config.x_size <= old(self).config.rem_distance
                    && !near_some_loader(#[trigger] old(self).chunks@[k], loaders@, old(self).config)
                    ==> !contains_index(final(self).chunks@, old(self).chunks@[k].index as int),
    {
        let ghost orig = self.chunks@;
        let ghost cfg = self.config;
        let ghost g = self.gen;
        let ghost pred = (|ch: Chunk| near_some_loader(ch, loaders@, cfg));
        remove_chunks(&mut self.chunks, loaders, &self.config);
        proof {
            if loaders@.len() > 0 {
                lemma_filter_unique(orig, pred);
                lemma_filter_membership(orig, pred);
                assert forall|k: int| 0 <= k < self.chunks@.len() implies chunk_wf(
                    #[trigger] self.chunks@[k],
                    cfg,
                    g,
                ) by {
                    assert(orig.contains(orig.filter(pred)[k]));
                    let j = choose|j: int| 0 <= j < orig.len() && orig[j] == orig.filter(pred)[k];
                    assert(chunk_wf(orig[j], cfg, g));
                }
                orig.filter_lemma(pred);
            }
        }
        let ghost kept = self.chunks@;
        generate_chunks(&mut self.chunks, loaders, &self.config, &self.gen);
        proof {
            assert forall|k: int|
                0 <= k < orig.len() && near_some_loader(#[trigger] orig[k], loaders@, cfg)
                implies contains_index(self.chunks@, orig[k].index as int) by {
                if loaders@.len() > 0 {
                    assert(pred(orig[k]));
                    assert(kept.contains(orig[k]));
                    let j = choose|j: int| 0 <= j < kept.len() && kept[j] == orig[k];
                    assert(self.chunks@[j] == orig[k]);
                } else {
                    assert(kept[k] == orig[k]);
                    assert(self.chunks@[k] == orig[k]);
                }
            }
            if loaders@.len() > 0 && cfg.gen_distance + cfg.x_size <= cfg.rem_distance {
                assert forall|k: int|
                    0 <= k < orig.len() && !near_some_loader(
                        #[trigger] orig[k],
                        loaders@,
                        cfg,
                    ) implies !contains_index(self.chunks@, orig[k].index as int) by {
                    let ch = orig[k];
                    if contains_index(self.chunks@, ch.index as int) {
                        let m = choose|m: int|
                            0 <= m < self.chunks@.len() && (#[trigger] self.chunks@[m]).index
                                == ch.index;
                        if m < kept.len() {
                            // A survivor of the removal pass: it came from the
                            // old set, has the same index, so it is the same
                            // chunk — but it passed the nearness filter.
                            assert(self.chunks@[m] == kept[m]);
                            assert(kept[m] == orig.filter(pred)[m]);
                            assert(pred(orig.filter(pred)[m]));
                            assert(orig.contains(orig.filter(pred)[m]));
                            let j = choose|j: int|
                                0 <= j < orig.len() && orig[j] == orig.filter(pred)[m];
                            if j != k {
                                assert(orig[j].index != orig[k].index);
                            }
                            assert(near_some_loader(ch, loaders@, cfg));
                        } else {
                            // A freshly generated chunk: it lies in some
                            // loader's window, so its position — which equals
                            // the old chunk's, index times width — is within
                            // the removal radius of that loader.
                            let li = choose|li: int|
                                0 <= li < loaders@.len() && #[trigger] in_window(
                                    loaders@[li].x as int,
                                    cfg,
                                    self.chunks@[m].index as int,
                                );
                            lemma_window_index_bounds(
                                cfg,
                                loaders@[li].x as int,
                                self.chunks@[m].index as int,
                            );
                            assert(chunk_wf(self.chunks@[m], cfg, g));
                            assert(ch.x == ch.index * cfg.x_size);
                            assert(vstd::math::abs(ch.x - loaders@[li].x) <= cfg.rem_distance);
                            assert(near_some_loader(ch, loaders@, cfg));
                        }
                    }
                }
            }
        }
    }
}

} // verus!
