//! The procedural height field.
//!
//! Terrain height is a sum of `N_TERMS` periodic terms whose frequency,
//! phase and amplitude are sampled once per world from configured ranges.
//! Once sampled, height and slope are pure functions of the x coordinate:
//! probing the same position always returns the same value.

use vstd::prelude::*;

use crate::fixed::{
    dsin_fp, lemma_abs_mul_bound, lemma_div_bound, sin_fp, spec_dsin_fp, spec_sin_fp, FREQ_MAX,
    AMP_MAX, POS_LIMIT, SCALE, SLOPE_LIMIT, TURN,
};
use crate::rng::{fresh_rng, gen_range_i64};

verus! {

/// Number of periodic terms in the height field.
pub const N_TERMS: usize = 10;

/// A half-open sampling range.
#[derive(Clone, Copy, Debug, PartialEq, Eq, Structural)]
pub struct SampleRange {
    pub lo: i64,
    pub hi: i64,
}

/// Sampling ranges for the height field parameters; each range is
/// half-open and must be non-empty.
#[derive(Clone, Copy, Debug, PartialEq, Eq, Structural)]
pub struct ChunkGenConfig {
    pub frequency_range: SampleRange,
    pub phase_range: SampleRange,
    pub amplitude_range: SampleRange,
}

/// Rejected height field configurations.
#[derive(Clone, Copy, Debug, PartialEq, Eq, Structural)]
pub enum GenConfigError {
    /// An empty or inverted sampling range: drawing from it panics.
    EmptyRange,
    /// A range reaching outside what the probe arithmetic admits.
    RangeOutOfBounds,
}

impl GenConfigError {
    /// A human-readable account of the rejection.
    pub fn describe(&self) -> &'static str {
        match self {
            GenConfigError::EmptyRange => "height field config: empty or inverted sampling range",
            GenConfigError::RangeOutOfBounds => "height field config: sampling range out of bounds",
        }
    }
}

impl ChunkGenConfig {
    pub open spec fn valid(self) -> bool {
        &&& 0 <= self.frequency_range.lo < self.frequency_range.hi <= FREQ_MAX
        &&& 0 <= self.phase_range.lo < self.phase_range.hi <= TURN
        &&& 0 <= self.amplitude_range.lo < self.amplitude_range.hi <= AMP_MAX
    }

    /// Validates sampling ranges, rejecting degenerate ones before they
    /// can panic the sampler or overflow the probe.
    pub fn new(
        frequency_range: SampleRange,
        phase_range: SampleRange,
        amplitude_range: SampleRange,
    ) -> (r: Result<ChunkGenConfig, GenConfigError>)
        ensures
            r is Ok <==> (ChunkGenConfig { frequency_range, phase_range, amplitude_range }).valid(),
            r is Ok ==> r->Ok_0 == (ChunkGenConfig { frequency_range, phase_range, amplitude_range }),
            frequency_range.lo >= frequency_range.hi || phase_range.lo >= phase_range.hi
                || amplitude_range.lo >= amplitude_range.hi ==> r == Result::<
                ChunkGenConfig,
                GenConfigError,
            >::Err(GenConfigError::EmptyRange),
            r is Err ==> r->Err_0 == GenConfigError::EmptyRange || r->Err_0
                == GenConfigError::RangeOutOfBounds,
    {
        if frequency_range.lo >= frequency_range.hi || phase_range.lo >= phase_range.hi
            || amplitude_range.lo >= amplitude_range.hi {
            Err(GenConfigError::EmptyRange)
        } else if frequency_range.lo < 0 || frequency_range.hi > FREQ_MAX || phase_range.lo < 0
            || phase_range.hi > TURN || amplitude_range.lo < 0 || amplitude_range.hi > AMP_MAX {
            Err(GenConfigError::RangeOutOfBounds)
        } else {
            Ok(ChunkGenConfig { frequency_range, phase_range, amplitude_range })
        }
    }
}

impl Default for ChunkGenConfig {
    /// Gentle rolling hills: slow waves, any phase, amplitudes near 33
    /// world units.
    fn default() -> (r: Self)
        ensures
            r == (ChunkGenConfig {
                frequency_range: SampleRange { lo: 0i64, hi: 52i64 },
                phase_range: SampleRange { lo: 0i64, hi: TURN },
                amplitude_range: SampleRange { lo: 30i64, hi: 36i64 },
            }),
            r.valid(),
    {
        ChunkGenConfig {
            frequency_range: SampleRange { lo: 0, hi: 52 },
            phase_range: SampleRange { lo: 0, hi: TURN },
            amplitude_range: SampleRange { lo: 30, hi: 36 },
        }
    }
}

/// The sampled height field parameters.
#[derive(Debug)]
pub struct ChunkGen {
    pub frequencies: Vec<i64>,
    pub phases: Vec<i64>,
    pub amplitudes: Vec<i64>,
}

/// One term of the height sum, scaled by `SCALE`.
pub open spec fn spec_term(g: ChunkGen, x: int, i: int) -> int {
    g.amplitudes@[i] * spec_sin_fp(g.frequencies@[i] * x + g.phases@[i])
}

/// Sum of the first `n` height terms, scaled by `SCALE`.
pub open spec fn spec_height_sum(g: ChunkGen, x: int, n: int) -> int
    decreases n,
{
    if n <= 0 {
        0
    } else {
        spec_height_sum(g, x, n - 1) + spec_term(g, x, n - 1)
    }
}

/// Terrain height at `x`, in world units.
pub open spec fn spec_probe(g: ChunkGen, x: int) -> int {
    spec_height_sum(g, x, N_TERMS as int) / (SCALE as int)
}

/// One term of the slope sum: amplitude times frequency times the wave's
/// flank direction.  The whole sum carries a factor of `SCALE` relative
/// to height units per world unit.
pub open spec fn spec_slope_term(g: ChunkGen, x: int, i: int) -> int {
    g.amplitudes@[i] * g.frequencies@[i] * spec_dsin_fp(g.frequencies@[i] * x + g.phases@[i])
}

/// Sum of the first `n` slope terms.
pub open spec fn spec_slope_sum(g: ChunkGen, x: int, n: int) -> int
    decreases n,
{
    if n <= 0 {
        0
    } else {
        spec_slope_sum(g, x, n - 1) + spec_slope_term(g, x, n - 1)
    }
}

/// Terrain slope at `x`, scaled by `SCALE`.
pub open spec fn spec_probe_derivative(g: ChunkGen, x: int) -> int {
    spec_slope_sum(g, x, N_TERMS as int)
}

impl ChunkGen {
    pub open spec fn well_formed(self) -> bool {
        &&& self.frequencies@.len() == N_TERMS
        &&& self.phases@.len() == N_TERMS
        &&& self.amplitudes@.len() == N_TERMS
        &&& (forall|i: int|
            0 <= i < N_TERMS ==> 0 <= #[trigger] self.frequencies@[i] <= FREQ_MAX)
        &&& (forall|i: int| 0 <= i < N_TERMS ==> 0 <= #[trigger] self.phases@[i] <= TURN)
        &&& (forall|i: int| 0 <= i < N_TERMS ==> 0 <= #[trigger] self.amplitudes@[i] <= AMP_MAX)
    }

    /// Samples fresh parameters for every term, as the configured ranges
    /// allow.  Re-rolling while chunks exist shifts the terrain under
    /// them; callers gate this behind clearing all chunks.
    pub fn reset(&mut self, config: &ChunkGenConfig)
        requires
            config.valid(),
        ensures
            final(self).well_formed(),
            forall|i: int|
                0 <= i < N_TERMS ==> config.frequency_range.lo
                    <= #[trigger] final(self).frequencies@[i] < config.frequency_range.hi,
            forall|i: int|
                0 <= i < N_TERMS ==> config.phase_range.lo <= #[trigger] final(self).phases@[i]
                    < config.phase_range.hi,
            forall|i: int|
                0 <= i < N_TERMS ==> config.amplitude_range.lo
                    <= #[trigger] final(self).amplitudes@[i] < config.amplitude_range.hi,
    {
        let mut rng = fresh_rng();
        self.frequencies = sample_terms(&mut rng, config.frequency_range.lo, config.frequency_range.hi);
        let mut rng = fresh_rng();
        self.phases = sample_terms(&mut rng, config.phase_range.lo, config.phase_range.hi);
        let mut rng = fresh_rng();
        self.amplitudes = sample_terms(&mut rng, config.amplitude_range.lo, config.amplitude_range.hi);
    }

    /// Terrain height at `x`.  A pure function of the sampled parameters:
    /// probing the same `x` twice returns identical values.
    pub fn probe(&self, x: i64) -> (h: i64)
        requires
            self.well_formed(),
            -POS_LIMIT <= x <= POS_LIMIT,
        ensures
            h == spec_probe(*self, x as int),
            -10 * AMP_MAX <= h <= 10 * AMP_MAX,
    {
        let mut acc: i64 = 0;
        let mut i: usize = 0;
        while i < N_TERMS
            invariant
                self.well_formed(),
                -POS_LIMIT <= x <= POS_LIMIT,
                0 <= i <= N_TERMS,
                acc == spec_height_sum(*self, x as int, i as int),
                -(i as int) * AMP_MAX * SCALE <= acc <= (i as int) * AMP_MAX * SCALE,
            decreases N_TERMS - i,
        {
            let f = self.frequencies[i];
            let p = self.phases[i];
            let a = self.amplitudes[i];
            proof {
                lemma_abs_mul_bound(f as int, x as int, FREQ_MAX as int, POS_LIMIT as int);
            }
            let theta = f * x + p;
            let s = sin_fp(theta);
            proof {
                lemma_abs_mul_bound(a as int, s as int, AMP_MAX as int, SCALE as int);
                assert((i as int) * (AMP_MAX as int) * (SCALE as int) + (AMP_MAX as int) * (
                SCALE as int) == ((i as int) + 1) * (AMP_MAX as int) * (SCALE as int))
                    by (nonlinear_arith);
            }
            let term = a * s;
            acc = acc + term;
            i = i + 1;
        }
        proof {
            assert((10 as int) * (AMP_MAX as int) * (SCALE as int) == (10 * AMP_MAX) as int * (
            SCALE as int)) by (nonlinear_arith);
            lemma_div_bound(acc as int, 10 * AMP_MAX as int);
        }
        match acc.checked_div_euclid(SCALE) {
            Some(q) => q,
            None => 0,
        }
    }

    /// Terrain slope at `x`, scaled by `SCALE`; the analytic derivative
    /// of `probe`.
    pub fn probe_derivative(&self, x: i64) -> (d: i64)
        requires
            self.well_formed(),
            -POS_LIMIT <= x <= POS_LIMIT,
        ensures
            d == spec_probe_derivative(*self, x as int),
            -SLOPE_LIMIT <= d <= SLOPE_LIMIT,
    {
        let mut acc: i64 = 0;
        let mut i: usize = 0;
        while i < N_TERMS
            invariant
                self.well_formed(),
                -POS_LIMIT <= x <= POS_LIMIT,
                0 <= i <= N_TERMS,
                acc == spec_slope_sum(*self, x as int, i as int),
                -(i as int) * 4 * AMP_MAX * FREQ_MAX <= acc <= (i as int) * 4 * AMP_MAX
                    * FREQ_MAX,
            decreases N_TERMS - i,
        {
            let f = self.frequencies[i];
            let p = self.phases[i];
            let a = self.amplitudes[i];
            proof {
                lemma_abs_mul_bound(f as int, x as int, FREQ_MAX as int, POS_LIMIT as int);
                lemma_abs_mul_bound(a as int, f as int, AMP_MAX as int, FREQ_MAX as int);
            }
            let theta = f * x + p;
            let ds = dsin_fp(theta);
            proof {
                lemma_abs_mul_bound(
                    (a * f) as int,
                    ds as int,
                    AMP_MAX as int * FREQ_MAX as int,
                    4,
                );
                assert((i as int) * 4 * (AMP_MAX as int) * (FREQ_MAX as int) + (AMP_MAX as int)
                    * (FREQ_MAX as int) * 4 == ((i as int) + 1) * 4 * (AMP_MAX as int) * (
                FREQ_MAX as int)) by (nonlinear_arith);
            }
            let term = a * f * ds;
            acc = acc + term;
            i = i + 1;
        }
        proof {
            assert((10 as int) * 4 * (AMP_MAX as int) * (FREQ_MAX as int) == SLOPE_LIMIT as int)
                by (nonlinear_arith);
            assert(-(10 as int) * 4 * (AMP_MAX as int) * (FREQ_MAX as int) == -(
            SLOPE_LIMIT as int)) by (nonlinear_arith);
            assert((i as int) * 4 * (AMP_MAX as int) * (FREQ_MAX as int) == (10 as int) * 4 * (
            AMP_MAX as int) * (FREQ_MAX as int));
            assert(-(i as int) * 4 * (AMP_MAX as int) * (FREQ_MAX as int) == -(10 as int) * 4 * (
            AMP_MAX as int) * (FREQ_MAX as int));
        }
        acc
    }
}

impl Default for ChunkGen {
    /// A flat field: every term zeroed, height 0 everywhere, until
    /// `reset` samples real parameters.
    fn default() -> (r: Self)
        ensures
            r.well_formed(),
            forall|i: int| 0 <= i < N_TERMS ==> #[trigger] r.frequencies@[i] == 0,
            forall|i: int| 0 <= i < N_TERMS ==> #[trigger] r.phases@[i] == 0,
            forall|i: int| 0 <= i < N_TERMS ==> #[trigger] r.amplitudes@[i] == 0,
    {
        ChunkGen {
            frequencies: zero_terms(),
            phases: zero_terms(),
            amplitudes: zero_terms(),
        }
    }
}

fn zero_terms() -> (r: Vec<i64>)
    ensures
        r@.len() == N_TERMS,
        forall|i: int| 0 <= i < N_TERMS ==> #[trigger] r@[i] == 0,
{
    let mut v: Vec<i64> = Vec::new();
    let mut i: usize = 0;
    while i < N_TERMS
        invariant
            0 <= i <= N_TERMS,
            v@.len() == i,
            forall|j: int| 0 <= j < i ==> #[trigger] v@[j] == 0,
        decreases N_TERMS - i,
    {
        v.push(0);
        i = i + 1;
    }
    v
}

/// Draws one sample per term from the half-open range `lo..hi`.
fn sample_terms(rng: &mut rand::rngs::SmallRng, lo: i64, hi: i64) -> (r: Vec<i64>)
    requires
        lo < hi,
    ensures
        r@.len() == N_TERMS,
        forall|i: int| 0 <= i < N_TERMS ==> lo <= #[trigger] r@[i] < hi,
{
    let mut v: Vec<i64> = Vec::new();
    let mut i: usize = 0;
    while i < N_TERMS
        invariant
            lo < hi,
            0 <= i <= N_TERMS,
            v@.len() == i,
            forall|j: int| 0 <= j < i ==> lo <= #[trigger] v@[j] < hi,
        decreases N_TERMS - i,
    {
        let s = gen_range_i64(rng, lo, hi);
        v.push(s);
        i = i + 1;
    }
    v
}

} // verus!
