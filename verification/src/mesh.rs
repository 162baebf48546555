//! Chunk surface geometry.
//!
//! A chunk's collider is a heightfield of `probes` samples across its
//! width.  Its render geometry is two triangle strips: a thin grass
//! ribbon hugging the surface, offset inward along the surface normal,
//! and an earth strip from the offset surface down to a fixed depth.
//! Normals are unit vectors scaled by `SCALE`, derived from the analytic
//! slope of the height field.

use vstd::prelude::*;

use crate::chunk::ChunkConfig;
use crate::fixed::{
    isqrt, lemma_abs_mul_bound, lemma_div_magnitude, spec_isqrt, Vec2i, POS_LIMIT, SCALE,
    SLOPE_LIMIT,
};
use crate::height::{spec_probe, spec_probe_derivative, ChunkGen};

verus! {

/// Thickness of the grass ribbon, in world units.
pub const GRASS_OFFSET: i64 = 10;

/// Lower boundary of the earth strip, in world units.
pub const EARTH_DEPTH_Y: i64 = -1000;

/// Distance between two height samples of one chunk.
pub open spec fn spec_dx(c: ChunkConfig) -> int {
    c.x_size as int / (c.probes - 1)
}

/// World x coordinate of sample `j` of the chunk starting at `x`.
pub open spec fn spec_sample_gx(c: ChunkConfig, x: int, j: int) -> int {
    x + j * spec_dx(c)
}

/// Surface vertex of sample `j`, in chunk-local coordinates.
pub open spec fn spec_surface_point(c: ChunkConfig, g: ChunkGen, x: int, j: int) -> Vec2i {
    Vec2i {
        x: (j * spec_dx(c) - c.x_size / 2) as i64,
        y: spec_probe(g, spec_sample_gx(c, x, j)) as i64,
    }
}

/// Outward surface normal at `gx`, scaled by `SCALE`: the perpendicular
/// of the tangent `(SCALE, slope)`, normalised by the integer length.
pub open spec fn spec_normal(g: ChunkGen, gx: int) -> Vec2i {
    let d = spec_probe_derivative(g, gx);
    let len = spec_isqrt((d * d + SCALE * SCALE) as nat) as int;
    Vec2i { x: ((-d * SCALE) / len) as i64, y: ((SCALE as int * SCALE as int) / len) as i64 }
}

/// Surface vertex of sample `j`, pushed inward by `GRASS_OFFSET` along
/// the normal: the lower edge of the grass ribbon.
pub open spec fn spec_under_point(c: ChunkConfig, g: ChunkGen, x: int, j: int) -> Vec2i {
    let p = spec_surface_point(c, g, x, j);
    let n = spec_normal(g, spec_sample_gx(c, x, j));
    Vec2i {
        x: (p.x - (n.x * GRASS_OFFSET) / (SCALE as int)) as i64,
        y: (p.y - (n.y * GRASS_OFFSET) / (SCALE as int)) as i64,
    }
}

/// Heightfield samples and the two triangle strips of one chunk.
#[derive(Debug)]
pub struct ChunkGeometry {
    pub heights: Vec<i64>,
    pub grass_positions: Vec<Vec2i>,
    pub grass_normals: Vec<Vec2i>,
    pub earth_positions: Vec<Vec2i>,
    pub earth_normals: Vec<Vec2i>,
}

/// What `generate_meshes` promises of a chunk's geometry: every strip
/// alternates a surface-derived vertex with its counterpart below.
pub open spec fn geometry_wf(geo: ChunkGeometry, c: ChunkConfig, g: ChunkGen, x: int) -> bool {
    let p = c.probes as int;
    &&& geo.heights@.len() == p
    &&& (forall|j: int|
        0 <= j < p ==> #[trigger] geo.heights@[j] == spec_probe(g, spec_sample_gx(c, x, j)))
    &&& geo.grass_positions@.len() == 2 * p
    &&& (forall|k: int|
        0 <= k < 2 * p ==> #[trigger] geo.grass_positions@[k] == (if k % 2 == 0 {
            spec_surface_point(c, g, x, k / 2)
        } else {
            spec_under_point(c, g, x, k / 2)
        }))
    &&& geo.grass_normals@.len() == 2 * p
    &&& (forall|k: int|
        0 <= k < 2 * p ==> #[trigger] geo.grass_normals@[k] == (if k % 2 == 0 {
            spec_normal(g, spec_sample_gx(c, x, k / 2))
        } else {
            let n = spec_normal(g, spec_sample_gx(c, x, k / 2));
            Vec2i { x: (-n.x) as i64, y: (-n.y) as i64 }
        }))
    &&& geo.earth_positions@.len() == 2 * p
    &&& (forall|k: int|
        0 <= k < 2 * p ==> #[trigger] geo.earth_positions@[k] == (if k % 2 == 0 {
            spec_under_point(c, g, x, k / 2)
        } else {
            Vec2i { x: spec_under_point(c, g, x, k / 2).x, y: EARTH_DEPTH_Y }
        }))
    &&& geo.earth_normals@.len() == 2 * p
    &&& (forall|k: int|
        0 <= k < 2 * p ==> #[trigger] geo.earth_normals@[k] == (if k % 2 == 0 {
            spec_normal(g, spec_sample_gx(c, x, k / 2))
        } else {
            Vec2i { x: 0i64, y: (-SCALE) as i64 }
        }))
}

/// Relies on itertools::Itertools::interleave: over two equally long
/// sequences it alternates their elements, starting with the first.
#[verifier::external_body]
fn interleave_vecs<T: Copy>(a: &Vec<T>, b: &Vec<T>) -> (r: Vec<T>)
    requires
        a@.len() == b@.len(),
    ensures
        r@.len() == a@.len() + b@.len(),
        forall|k: int|
            0 <= k < r@.len() ==> #[trigger] r@[k] == (if k % 2 == 0 {
                a@[k / 2]
            } else {
                b@[k / 2]
            }),
{
    itertools::Itertools::interleave(a.iter().copied(), b.iter().copied()).collect()
}

/// Sample offsets stay inside the chunk: `j * dx <= x_size`.
proof fn lemma_sample_step_bound(c: ChunkConfig, j: int)
    requires
        c.valid(),
        0 <= j <= c.probes - 1,
    ensures
        0 <= j * spec_dx(c) <= c.x_size,
{
    let d = c.probes as int - 1;
    let dx = spec_dx(c);
    vstd::arithmetic::div_mod::lemma_div_pos_is_pos(c.x_size as int, d);
    vstd::arithmetic::div_mod::lemma_fundamental_div_mod(c.x_size as int, d);
    vstd::arithmetic::div_mod::lemma_mod_bound(c.x_size as int, d);
    assert(0 <= j * dx <= c.x_size) by (nonlinear_arith)
        requires
            c.x_size as int == d * dx + c.x_size as int % d,
            0 <= c.x_size as int % d,
            0 <= j <= d,
            0 <= dx,
    ;
}

/// Builds the heightfield samples and both render strips of the chunk
/// starting at world coordinate `x`.
pub fn generate_meshes(config: &ChunkConfig, gen: &ChunkGen, x: i64) -> (geo: ChunkGeometry)
    requires
        config.valid(),
        gen.well_formed(),
        -POS_LIMIT <= x,
        x + config.x_size <= POS_LIMIT,
    ensures
        geometry_wf(geo, *config, *gen, x as int),
{
    let probes_i64 = (config.probes - 1) as i64;
    let dx = match config.x_size.checked_div_euclid(probes_i64) {
        Some(q) => q,
        None => 0,
    };
    let half = match config.x_size.checked_div_euclid(2) {
        Some(q) => q,
        None => 0,
    };
    proof {
        vstd::arithmetic::div_mod::lemma_div_pos_is_pos(config.x_size as int, probes_i64 as int);
        vstd::arithmetic::div_mod::lemma_div_pos_is_pos(config.x_size as int, 2);
        vstd::arithmetic::div_mod::lemma_div_nonincreasing(config.x_size as int, 2);
    }
    let mut heights: Vec<i64> = Vec::new();
    let mut surface: Vec<Vec2i> = Vec::new();
    let mut under: Vec<Vec2i> = Vec::new();
    let mut normals: Vec<Vec2i> = Vec::new();
    let mut neg_normals: Vec<Vec2i> = Vec::new();
    let mut floor_pts: Vec<Vec2i> = Vec::new();
    let mut down_normals: Vec<Vec2i> = Vec::new();
    let probes = config.probes as usize;
    let mut j: usize = 0;
    while j < probes
        invariant
            config.valid(),
            gen.well_formed(),
            -POS_LIMIT <= x,
            x + config.x_size <= POS_LIMIT,
            probes == config.probes,
            dx == spec_dx(*config),
            half == config.x_size as int / 2,
            0 <= dx <= config.x_size,
            0 <= half <= config.x_size,
            0 <= j <= probes,
            heights@.len() == j,
            surface@.len() == j,
            under@.len() == j,
            normals@.len() == j,
            neg_normals@.len() == j,
            floor_pts@.len() == j,
            down_normals@.len() == j,
            forall|i: int|
                0 <= i < j ==> #[trigger] heights@[i] == spec_probe(
                    *gen,
                    spec_sample_gx(*config, x as int, i),
                ),
            forall|i: int|
                0 <= i < j ==> #[trigger] surface@[i] == spec_surface_point(
                    *config,
                    *gen,
                    x as int,
                    i,
                ),
            forall|i: int|
                0 <= i < j ==> #[trigger] under@[i] == spec_under_point(*config, *gen, x as int, i),
            forall|i: int|
                0 <= i < j ==> #[trigger] normals@[i] == spec_normal(
                    *gen,
                    spec_sample_gx(*config, x as int, i),
                ),
            forall|i: int|
                0 <= i < j ==> #[trigger] neg_normals@[i] == (Vec2i {
                    x: (-spec_normal(*gen, spec_sample_gx(*config, x as int, i)).x) as i64,
                    y: (-spec_normal(*gen, spec_sample_gx(*config, x as int, i)).y) as i64,
                }),
            forall|i: int|
                0 <= i < j ==> #[trigger] floor_pts@[i] == (Vec2i {
                    x: spec_under_point(*config, *gen, x as int, i).x,
                    y: EARTH_DEPTH_Y,
                }),
            forall|i: int|
                0 <= i < j ==> #[trigger] down_normals@[i] == (Vec2i { x: 0i64, y: (-SCALE) as i64 }),
        decreases probes - j,
    {
        proof {
            lemma_sample_step_bound(*config, j as int);
        }
        let lx = (j as i64) * dx;
        let gx = x + lx;
        let y = gen.probe(gx);
        let d = gen.probe_derivative(gx);
        proof {
            lemma_abs_mul_bound(d as int, d as int, SLOPE_LIMIT as int, SLOPE_LIMIT as int);
            assert(d as int * d as int >= 0) by (nonlinear_arith);
            assert((SLOPE_LIMIT as int) * (SLOPE_LIMIT as int) == 0x1900_0000_0000_0000)
                by (nonlinear_arith);
            assert((SCALE as int) * (SCALE as int) == 0x1_0000_0000) by (nonlinear_arith);
        }
        let n2 = d * d + SCALE * SCALE;
        let len = isqrt(n2 as u64);
        proof {
            let li = len as int;
            let n2i = n2 as int;
            assert(SCALE <= li <= 0x8000_0000) by (nonlinear_arith)
                requires
                    li * li <= n2i,
                    n2i < (li + 1) * (li + 1),
                    (SCALE as int) * (SCALE as int) <= n2i,
                    n2i <= (SLOPE_LIMIT as int) * (SLOPE_LIMIT as int) + (SCALE as int) * (
                    SCALE as int),
                    li >= 0,
            ;
            lemma_abs_mul_bound(d as int, SCALE as int, SLOPE_LIMIT as int, SCALE as int);
        }
        let len_i = len as i64;
        let num_x = -(d * SCALE);
        proof {
            lemma_div_magnitude(num_x as int, len_i as int);
            lemma_div_magnitude((SCALE * SCALE) as int, len_i as int);
        }
        let nx = match num_x.checked_div_euclid(len_i) {
            Some(q) => q,
            None => 0,
        };
        let ny = match (SCALE * SCALE).checked_div_euclid(len_i) {
            Some(q) => q,
            None => 0,
        };
        proof {
            lemma_abs_mul_bound(
                nx as int,
                GRASS_OFFSET as int,
                0x5000_0000_0000 as int,
                GRASS_OFFSET as int,
            );
            lemma_abs_mul_bound(
                ny as int,
                GRASS_OFFSET as int,
                0x5000_0000_0000 as int,
                GRASS_OFFSET as int,
            );
            lemma_div_magnitude((nx * GRASS_OFFSET) as int, SCALE as int);
            lemma_div_magnitude((ny * GRASS_OFFSET) as int, SCALE as int);
        }
        let off_x = match (nx * GRASS_OFFSET).checked_div_euclid(SCALE) {
            Some(q) => q,
            None => 0,
        };
        let off_y = match (ny * GRASS_OFFSET).checked_div_euclid(SCALE) {
            Some(q) => q,
            None => 0,
        };
        let pos = Vec2i { x: lx - half, y };
        let upt = Vec2i { x: pos.x - off_x, y: pos.y - off_y };
        heights.push(y);
        surface.push(pos);
        under.push(upt);
        normals.push(Vec2i { x: nx, y: ny });
        neg_normals.push(Vec2i { x: -nx, y: -ny });
        floor_pts.push(Vec2i { x: upt.x, y: EARTH_DEPTH_Y });
        down_normals.push(Vec2i { x: 0, y: -SCALE });
        j = j + 1;
    }
    let grass_positions = interleave_vecs(&surface, &under);
    let grass_normals = interleave_vecs(&normals, &neg_normals);
    let earth_positions = interleave_vecs(&under, &floor_pts);
    let earth_normals = interleave_vecs(&normals, &down_normals);
    ChunkGeometry { heights, grass_positions, grass_normals, earth_positions, earth_normals }
}

} // verus!
