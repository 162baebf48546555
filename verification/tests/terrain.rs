use terraweld::chunk::{
    calculate_distance, clear_chunks, remove_chunks, Chunk, ChunkConfig, ChunkConfigError,
    ChunkPlugin, Chunkloader,
};
use terraweld::fixed::{cos_fp, isqrt, rotate_fp, sin_fp, Vec2i};
use terraweld::height::{ChunkGen, ChunkGenConfig, GenConfigError, SampleRange};
use terraweld::mesh::generate_meshes;

fn zeroed_gen() -> ChunkGen {
    ChunkGen::default()
}

#[test]
fn sin_wave_values() {
    assert_eq!(sin_fp(0), 0);
    assert_eq!(sin_fp(16384), 65536);
    assert_eq!(sin_fp(32768), 0);
    assert_eq!(sin_fp(49152), -65536);
    assert_eq!(sin_fp(65536), 0);
    assert_eq!(sin_fp(-16384), -65536);
    assert_eq!(sin_fp(70000), sin_fp(70000 - 65536));
    assert_eq!(sin_fp(-70000), sin_fp(-70000 + 65536));
}

#[test]
fn cos_wave_values() {
    assert_eq!(cos_fp(0), 65536);
    assert_eq!(cos_fp(16384), 0);
    assert_eq!(cos_fp(32768), -65536);
    assert_eq!(cos_fp(-16384), 0);
}

#[test]
fn isqrt_values() {
    assert_eq!(isqrt(0), 0);
    assert_eq!(isqrt(1), 1);
    assert_eq!(isqrt(15), 3);
    assert_eq!(isqrt(16), 4);
    assert_eq!(isqrt(65536 * 65536), 65536);
    assert_eq!(isqrt(u64::MAX), 4294967295);
}

#[test]
fn rotate_quarter_turn() {
    let r = rotate_fp(Vec2i { x: 100, y: 0 }, 16384);
    assert_eq!(r, Vec2i { x: 0, y: 100 });
    let id = rotate_fp(Vec2i { x: 100, y: -7 }, 0);
    assert_eq!(id, Vec2i { x: 100, y: -7 });
    let half = rotate_fp(Vec2i { x: 100, y: 0 }, 32768);
    assert_eq!(half, Vec2i { x: -100, y: 0 });
}

#[test]
fn height_determinism() {
    let config = ChunkGenConfig::default();
    let mut gen = ChunkGen::default();
    gen.reset(&config);
    for x in [0i64, 1, -1, 1234, -99999, 1 << 30] {
        assert_eq!(gen.probe(x), gen.probe(x));
        assert_eq!(gen.probe_derivative(x), gen.probe_derivative(x));
    }
}

#[test]
fn probe_zero_field_is_flat() {
    let gen = zeroed_gen();
    assert_eq!(gen.probe(0), 0);
    assert_eq!(gen.probe(123456), 0);
    assert_eq!(gen.probe_derivative(-555), 0);
}

#[test]
fn probe_exact_values() {
    // Frequency 0 keeps every term at its phase: ten terms of
    // 36 * sin(quarter turn) sum to 360 world units.
    let gen = ChunkGen {
        frequencies: vec![0; 10],
        phases: vec![16384; 10],
        amplitudes: vec![36; 10],
    };
    assert_eq!(gen.probe(0), 360);
    assert_eq!(gen.probe(777), 360);
    assert_eq!(gen.probe_derivative(0), 0);

    // Frequency 1, phase at the falling flank: slope is 10 * 36 * 1 * -4.
    let gen2 = ChunkGen {
        frequencies: vec![1; 10],
        phases: vec![16384; 10],
        amplitudes: vec![36; 10],
    };
    assert_eq!(gen2.probe(0), 360);
    assert_eq!(gen2.probe_derivative(0), -1440);
}

#[test]
fn sample_ranges_respected() {
    let config = ChunkGenConfig::default();
    let mut gen = ChunkGen::default();
    gen.reset(&config);
    assert_eq!(gen.frequencies.len(), 10);
    assert_eq!(gen.phases.len(), 10);
    assert_eq!(gen.amplitudes.len(), 10);
    for &f in &gen.frequencies {
        assert!((0..52).contains(&f));
    }
    for &p in &gen.phases {
        assert!((0..65536).contains(&p));
    }
    for &a in &gen.amplitudes {
        assert!((30..36).contains(&a));
    }
}

#[test]
fn chunk_config_defaults() {
    let c = ChunkConfig::default();
    assert_eq!(c.probes, 33);
    assert_eq!(c.x_size, 1024);
    assert_eq!(c.gen_distance, 4096);
    assert_eq!(c.rem_distance, 8192);
    let g = ChunkGenConfig::default();
    assert_eq!(g.frequency_range, SampleRange { lo: 0, hi: 52 });
    assert_eq!(g.phase_range, SampleRange { lo: 0, hi: 65536 });
    assert_eq!(g.amplitude_range, SampleRange { lo: 30, hi: 36 });
}

#[test]
fn chunk_config_rejections() {
    assert_eq!(
        ChunkConfig::new(1, 1024, 4096, 8192),
        Err(ChunkConfigError::TooFewProbes)
    );
    assert_eq!(
        ChunkConfig::new(100000, 1024, 4096, 8192),
        Err(ChunkConfigError::TooManyProbes)
    );
    assert_eq!(
        ChunkConfig::new(33, 0, 4096, 8192),
        Err(ChunkConfigError::InvalidWidth)
    );
    assert_eq!(
        ChunkConfig::new(33, 1024, 4096, 1 << 40),
        Err(ChunkConfigError::InvalidDistance)
    );
    assert_eq!(
        ChunkConfig::new(33, 1024, 8192, 8192),
        Err(ChunkConfigError::NoHysteresis)
    );
    let ok = ChunkConfig::new(33, 1024, 4096, 8192).unwrap();
    assert_eq!(ok, ChunkConfig::default());
    assert!(!ChunkConfigError::NoHysteresis.describe().is_empty());
}

fn indices(chunks: &[Chunk]) -> Vec<i64> {
    chunks.iter().map(|c| c.index).collect()
}

#[test]
fn chunk_coverage_window() {
    let mut plugin = ChunkPlugin::build();
    let loaders = vec![Chunkloader { x: 0 }];
    plugin.tick(&loaders);
    // Window around 0 with the defaults: floor(-4096/1024) ..= ceil(4096/1024).
    let mut idx = indices(&plugin.chunks);
    idx.sort();
    assert_eq!(idx, vec![-4, -3, -2, -1, 0, 1, 2, 3, 4]);
    for ch in &plugin.chunks {
        assert_eq!(ch.x, ch.index * 1024);
        assert_eq!(ch.geometry.heights.len(), 33);
        assert_eq!(ch.geometry.grass_positions.len(), 66);
        assert_eq!(ch.groups.memberships, 1);
        assert_eq!(ch.groups.filters, 2 | 4);
    }
}

#[test]
fn no_duplicate_chunks_across_ticks() {
    let mut plugin = ChunkPlugin::build();
    plugin.tick(&vec![Chunkloader { x: 0 }]);
    plugin.tick(&vec![Chunkloader { x: 0 }]);
    plugin.tick(&vec![Chunkloader { x: 512 }]);
    let mut idx = indices(&plugin.chunks);
    let n = idx.len();
    idx.sort();
    idx.dedup();
    assert_eq!(idx.len(), n);
}

#[test]
fn overlapping_loaders_share_chunks() {
    let mut plugin = ChunkPlugin::build();
    plugin.tick(&vec![Chunkloader { x: 0 }, Chunkloader { x: 100 }]);
    let mut idx = indices(&plugin.chunks);
    let n = idx.len();
    idx.sort();
    idx.dedup();
    assert_eq!(idx.len(), n);
    assert!(idx.contains(&-4));
    assert!(idx.contains(&5)); // ceil((100 + 4096) / 1024)
}

#[test]
fn hysteresis_no_flicker() {
    let mut plugin = ChunkPlugin::build();
    plugin.tick(&vec![Chunkloader { x: 0 }]);
    let before = plugin.chunks.len();
    // The loader moves by rem - gen - width: no chunk generated for the
    // old window may be dropped on the following tick.
    plugin.tick(&vec![Chunkloader { x: -3072 }]);
    let mut idx = indices(&plugin.chunks);
    idx.sort();
    for i in -4..=4 {
        assert!(idx.contains(&i), "chunk {} flickered away", i);
    }
    assert!(plugin.chunks.len() >= before);
}

#[test]
fn removal_beyond_distance() {
    let mut plugin = ChunkPlugin::build();
    plugin.tick(&vec![Chunkloader { x: 0 }]);
    let config = plugin.config;
    let mut chunks = std::mem::take(&mut plugin.chunks);
    remove_chunks(&mut chunks, &vec![Chunkloader { x: 20000 }], &config);
    // Chunk 4 sits at 4096: distance 15904 exceeds 8192, so it is gone;
    // every survivor is within the removal distance.
    assert!(!indices(&chunks).contains(&-4));
    for ch in &chunks {
        assert!((ch.x - 20000).abs() <= 8192);
    }
}

#[test]
fn removal_with_no_loaders_keeps_all() {
    let mut plugin = ChunkPlugin::build();
    plugin.tick(&vec![Chunkloader { x: 0 }]);
    let config = plugin.config;
    let before = plugin.chunks.len();
    let mut chunks = std::mem::take(&mut plugin.chunks);
    let no_loaders: Vec<Chunkloader> = Vec::new();
    remove_chunks(&mut chunks, &no_loaders, &config);
    assert_eq!(chunks.len(), before);
}

#[test]
fn clear_chunks_empties() {
    let mut plugin = ChunkPlugin::build();
    plugin.tick(&vec![Chunkloader { x: 0 }]);
    let mut chunks = std::mem::take(&mut plugin.chunks);
    clear_chunks(&mut chunks);
    assert!(chunks.is_empty());
}

#[test]
fn distance_is_absolute() {
    assert_eq!(calculate_distance(10, 4), 6);
    assert_eq!(calculate_distance(4, 10), 6);
    assert_eq!(calculate_distance(-5, 5), 10);
}

#[test]
fn mesh_strips_alternate() {
    let config = ChunkConfig::default();
    let gen = zeroed_gen();
    let geo = generate_meshes(&config, &gen, 0);
    assert_eq!(geo.heights, vec![0; 33]);
    assert_eq!(geo.grass_positions.len(), 66);
    assert_eq!(geo.grass_normals.len(), 66);
    assert_eq!(geo.earth_positions.len(), 66);
    assert_eq!(geo.earth_normals.len(), 66);
    // Sample 0 sits at local x = -512 on a flat field; the ribbon's lower
    // edge is 10 units straight down, the earth floor at -1000.
    assert_eq!(geo.grass_positions[0], Vec2i { x: -512, y: 0 });
    assert_eq!(geo.grass_positions[1], Vec2i { x: -512, y: -10 });
    assert_eq!(geo.grass_positions[2], Vec2i { x: -480, y: 0 });
    assert_eq!(geo.grass_normals[0], Vec2i { x: 0, y: 65536 });
    assert_eq!(geo.grass_normals[1], Vec2i { x: 0, y: -65536 });
    assert_eq!(geo.earth_positions[0], Vec2i { x: -512, y: -10 });
    assert_eq!(geo.earth_positions[1], Vec2i { x: -512, y: -1000 });
    assert_eq!(geo.earth_normals[1], Vec2i { x: 0, y: -65536 });
}

#[test]
fn gen_config_rejections() {
    let ok = SampleRange { lo: 0, hi: 52 };
    let inverted = SampleRange { lo: 52, hi: 0 };
    let huge = SampleRange { lo: 0, hi: 1 << 30 };
    assert_eq!(
        ChunkGenConfig::new(inverted, ok, ok),
        Err(GenConfigError::EmptyRange)
    );
    assert_eq!(
        ChunkGenConfig::new(ok, ok, huge),
        Err(GenConfigError::RangeOutOfBounds)
    );
    let built = ChunkGenConfig::new(ok, SampleRange { lo: 0, hi: 65536 }, SampleRange { lo: 30, hi: 36 }).unwrap();
    assert_eq!(built, ChunkGenConfig::default());
    assert!(!GenConfigError::EmptyRange.describe().is_empty());
}

#[test]
fn regenerate_clears_chunks() {
    let mut plugin = ChunkPlugin::build();
    plugin.tick(&vec![Chunkloader { x: 0 }]);
    assert!(!plugin.chunks.is_empty());
    plugin.regenerate();
    assert!(plugin.chunks.is_empty());
    // Streaming resumes against the fresh field.
    plugin.tick(&vec![Chunkloader { x: 0 }]);
    assert_eq!(plugin.chunks.len(), 9);
}

#[test]
fn far_chunks_do_not_survive_a_tick() {
    let mut plugin = ChunkPlugin::build();
    plugin.tick(&vec![Chunkloader { x: 0 }]);
    // The loader jumps far beyond the removal radius: every old chunk is
    // dropped and only the new window remains.
    plugin.tick(&vec![Chunkloader { x: 20000 }]);
    let idx = indices(&plugin.chunks);
    for i in -4..=4 {
        assert!(!idx.contains(&i), "chunk {} resurrected", i);
    }
    for i in 16..=24 {
        assert!(idx.contains(&i));
    }
}
