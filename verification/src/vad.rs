use vstd::prelude::*;

verus! {

// Samples are signed 16-bit fixed point: -32768 .. 32767 stands for the
// normalized range -1.0 .. 1.0. Energy is the mean of squared samples and
// the spectral delta is the mean absolute first difference over a bounded
// prefix of the frame, both in the same fixed-point domain.

/// Default energy threshold, in the squared fixed-point domain
/// (a root-mean-square of 0.005 full scale).
pub const DEFAULT_ENERGY_THRESHOLD: u32 = 26844;

/// Default spectral-delta threshold (0.001 full scale).
pub const DEFAULT_SPECTRAL_THRESHOLD: u32 = 33;

/// Default number of samples per capture frame.
pub const DEFAULT_FRAME_SIZE: usize = 1024;

/// Default capture sample rate in hertz.
pub const DEFAULT_SAMPLE_RATE: u32 = 16000;

/// How many leading samples at most enter the spectral-delta sum, so that
/// the cost of the verdict does not grow with the frame.
pub const SPECTRAL_PREFIX: usize = 512;

/// One frame of captured audio, as handed from the capture boundary to the
/// transcription stage. Immutable after creation; it moves through the
/// pipeline and is never aliased.
#[derive(Debug)]
pub struct AudioChunk {
    /// Fixed-point mono samples.
    pub data: Vec<i16>,
    /// Sample rate in hertz.
    pub sample_rate: u32,
    /// Capture timestamp in milliseconds since the session began.
    pub timestamp_ms: u64,
    /// Verdict of the voice activity gate for this frame.
    pub has_voice: bool,
}

impl AudioChunk {
    /// Any real capture rate is at least 1 kHz; this keeps the duration of a
    /// frame in milliseconds within `u64`.
    pub open spec fn wf(&self) -> bool {
        self.sample_rate >= 1000
    }
}

impl Clone for AudioChunk {
    fn clone(&self) -> (r: Self)
        ensures
            r.data@ == self.data@,
            r.sample_rate == self.sample_rate,
            r.timestamp_ms == self.timestamp_ms,
            r.has_voice == self.has_voice,
    {
        let data_copy = clone_samples(&self.data);
        AudioChunk {
            data: data_copy,
            sample_rate: self.sample_rate,
            timestamp_ms: self.timestamp_ms,
            has_voice: self.has_voice,
        }
    }
}

fn clone_samples(v: &Vec<i16>) -> (r: Vec<i16>)
    ensures
        r@ == v@,
{
    let mut out: Vec<i16> = Vec::new();
    let mut i: usize = 0;
    while i < v.len()
        invariant
            i <= v.len(),
            out@ == v@.subrange(0, i as int),
        decreases v.len() - i,
    {
        out.push(v[i]);
        i = i + 1;
    }
    proof {
        assert(out@ =~= v@);
    }
    out
}

/// The voice verdict for one frame, with the derived features.
#[derive(Clone, Copy, Debug, PartialEq, Eq, Structural)]
pub struct VadDecision {
    pub is_voiced: bool,
    /// Mean squared sample over the whole frame.
    pub energy: u32,
    /// Mean absolute first difference over the bounded prefix.
    pub spectral_delta: u32,
}

/// The voice activity gate: a deterministic, side-effect-free decision
/// function from a frame to a speech/silence verdict.
#[derive(Clone, Copy, Debug, PartialEq, Eq, Structural)]
pub struct VadEngine {
    pub energy_threshold: u32,
    pub spectral_threshold: u32,
    pub frame_size: usize,
    pub sample_rate: u32,
}

pub open spec fn sum_squares(s: Seq<i16>) -> int
    decreases s.len(),
{
    if s.len() == 0 {
        0
    } else {
        sum_squares(s.drop_last()) + s.last() * s.last()
    }
}

pub open spec fn abs_diff(a: int, b: int) -> int {
    if a >= b {
        a - b
    } else {
        b - a
    }
}

/// Sum of absolute first differences of the first `n` samples.
pub open spec fn sum_abs_diff(s: Seq<i16>, n: int) -> int
    decreases n,
{
    if n <= 1 {
        0
    } else {
        sum_abs_diff(s, n - 1) + abs_diff(s[n - 2] as int, s[n - 1] as int)
    }
}

/// Mean squared sample of a frame; zero for an empty frame.
pub open spec fn spec_energy(s: Seq<i16>) -> int {
    if s.len() == 0 {
        0
    } else {
        sum_squares(s) / s.len() as int
    }
}

pub open spec fn spectral_prefix_len(s: Seq<i16>) -> int {
    if s.len() < SPECTRAL_PREFIX {
        s.len() as int
    } else {
        SPECTRAL_PREFIX as int
    }
}

/// Mean absolute first difference over the bounded prefix; zero for an
/// empty frame.
pub open spec fn spec_spectral_delta(s: Seq<i16>) -> int {
    if s.len() == 0 {
        0
    } else {
        sum_abs_diff(s, spectral_prefix_len(s)) / spectral_prefix_len(s)
    }
}

/// A frame is voiced exactly when both features clear their thresholds.
pub open spec fn spec_is_voiced(engine: VadEngine, s: Seq<i16>) -> bool {
    spec_energy(s) > engine.energy_threshold && spec_spectral_delta(s) > engine.spectral_threshold
}

proof fn lemma_sum_squares_bounds(s: Seq<i16>)
    ensures
        0 <= sum_squares(s) <= s.len() * 0x40000000,
    decreases s.len(),
{
    if s.len() > 0 {
        lemma_sum_squares_bounds(s.drop_last());
        let x = s.last() as int;
        assert(x * x <= 0x40000000) by (nonlinear_arith)
            requires
                -0x8000 <= x <= 0x7fff,
        ;
        assert(x * x >= 0) by (nonlinear_arith);
        assert((s.len() - 1) * 0x40000000 + 0x40000000 == s.len() * 0x40000000) by (nonlinear_arith);
    }
}

proof fn lemma_sum_abs_diff_bounds(s: Seq<i16>, n: int)
    requires
        n <= s.len(),
    ensures
        0 <= sum_abs_diff(s, n) <= if n <= 1 { 0 } else { (n - 1) * 0xffff },
    decreases n,
{
    if n > 1 {
        lemma_sum_abs_diff_bounds(s, n - 1);
        if n - 1 <= 1 {
        } else {
            assert((n - 2) * 0xffff + 0xffff == (n - 1) * 0xffff) by (nonlinear_arith);
        }
    }
}

impl VadEngine {
    /// The documented default configuration.
    pub open spec fn spec_default() -> VadEngine {
        VadEngine {
            energy_threshold: DEFAULT_ENERGY_THRESHOLD,
            spectral_threshold: DEFAULT_SPECTRAL_THRESHOLD,
            frame_size: DEFAULT_FRAME_SIZE,
            sample_rate: DEFAULT_SAMPLE_RATE,
        }
    }

    /// A gate with the documented default configuration.
    pub fn new() -> (r: VadEngine)
        ensures
            r.energy_threshold == DEFAULT_ENERGY_THRESHOLD,
            r.spectral_threshold == DEFAULT_SPECTRAL_THRESHOLD,
            r.frame_size == DEFAULT_FRAME_SIZE,
            r.sample_rate == DEFAULT_SAMPLE_RATE,
    {
        VadEngine {
            energy_threshold: DEFAULT_ENERGY_THRESHOLD,
            spectral_threshold: DEFAULT_SPECTRAL_THRESHOLD,
            frame_size: DEFAULT_FRAME_SIZE,
            sample_rate: DEFAULT_SAMPLE_RATE,
        }
    }

    /// A gate with caller-chosen thresholds; thresholds are configuration,
    /// not code.
    pub fn with_thresholds(energy_threshold: u32, spectral_threshold: u32) -> (r: VadEngine)
        ensures
            r.energy_threshold == energy_threshold,
            r.spectral_threshold == spectral_threshold,
            r.frame_size == DEFAULT_FRAME_SIZE,
            r.sample_rate == DEFAULT_SAMPLE_RATE,
    {
        VadEngine {
            energy_threshold,
            spectral_threshold,
            frame_size: DEFAULT_FRAME_SIZE,
            sample_rate: DEFAULT_SAMPLE_RATE,
        }
    }

    /// The decision for one frame: the derived features and the
    /// voiced verdict.
    pub fn decide(&self, data: &Vec<i16>) -> (r: VadDecision)
        ensures
            r.energy == spec_energy(data@),
            r.spectral_delta == spec_spectral_delta(data@),
            r.is_voiced == spec_is_voiced(*self, data@),
    {
        let energy = frame_energy(data);
        let spectral_delta = frame_spectral_delta(data);
        VadDecision {
            is_voiced: energy > self.energy_threshold && spectral_delta > self.spectral_threshold,
            energy,
            spectral_delta,
        }
    }

    /// The bare voiced verdict, as the capture callback consumes it.
    pub fn detect_voice(&self, data: &Vec<i16>) -> (r: bool)
        ensures
            r == spec_is_voiced(*self, data@),
    {
        self.decide(data).is_voiced
    }
}

/// Mean squared sample of the frame.
fn frame_energy(data: &Vec<i16>) -> (r: u32)
    ensures
        r == spec_energy(data@),
{
    if data.len() == 0 {
        return 0u32;
    }
    let mut sum: u128 = 0;
    let mut i: usize = 0;
    while i < data.len()
        invariant
            i <= data.len(),
            sum == sum_squares(data@.subrange(0, i as int)),
            sum <= (i as int) * 0x40000000,
        decreases data.len() - i,
    {
        let s: i16 = data[i];
        proof {
            let x = s as int;
            assert(x * x <= 0x40000000) by (nonlinear_arith)
                requires
                    -0x8000 <= x <= 0x7fff,
            ;
            assert(x * x >= 0) by (nonlinear_arith);
            assert(data@.subrange(0, i + 1 as int).drop_last() =~= data@.subrange(0, i as int));
            assert((i as int) * 0x40000000 + 0x40000000 == (i + 1 as int) * 0x40000000)
                by (nonlinear_arith);
        }
        let sq: i64 = (s as i64) * (s as i64);
        sum = sum + (sq as u128);
        i = i + 1;
    }
    proof {
        assert(data@.subrange(0, data@.len() as int) =~= data@);
        let n = data@.len() as int;
        lemma_sum_squares_bounds(data@);
        vstd::arithmetic::div_mod::lemma_div_is_ordered(sum as int, n * 0x40000000, n);
        vstd::arithmetic::div_mod::lemma_div_by_multiple(0x40000000, n);
        assert(sum as int / n <= 0x40000000);
        vstd::arithmetic::div_mod::lemma_div_pos_is_pos(sum as int, n);
    }
    (sum / (data.len() as u128)) as u32
}

/// Mean absolute first difference over the bounded prefix of the frame.
fn frame_spectral_delta(data: &Vec<i16>) -> (r: u32)
    ensures
        r == spec_spectral_delta(data@),
{
    if data.len() == 0 {
        return 0u32;
    }
    let bound: usize = if data.len() < SPECTRAL_PREFIX {
        data.len()
    } else {
        SPECTRAL_PREFIX
    };
    let mut sum: u32 = 0;
    let mut i: usize = 1;
    while i < bound
        invariant
            1 <= i,
            i == 1 || i <= bound,
            bound == spectral_prefix_len(data@),
            bound <= data.len(),
            sum == sum_abs_diff(data@, i as int),
            sum <= (i as int - 1) * 0xffff,
        decreases bound - i,
    {
        let a: i32 = data[i] as i32;
        let b: i32 = data[i - 1] as i32;
        let d: i32 = if a >= b {
            a - b
        } else {
            b - a
        };
        proof {
            assert((i as int - 1) * 0xffff + 0xffff == (i as int) * 0xffff) by (nonlinear_arith);
        }
        sum = sum + (d as u32);
        i = i + 1;
    }
    proof {
        let n = spectral_prefix_len(data@);
        lemma_sum_abs_diff_bounds(data@, n);
        if n > 1 {
            vstd::arithmetic::div_mod::lemma_div_is_ordered(sum as int, (n - 1) * 0xffff, n);
            vstd::arithmetic::div_mod::lemma_div_is_ordered((n - 1) * 0xffff, n * 0xffff, n);
            vstd::arithmetic::div_mod::lemma_div_by_multiple(0xffff, n);
            vstd::arithmetic::div_mod::lemma_div_pos_is_pos(sum as int, n);
        }
    }
    sum / (bound as u32)
}

/// Law: a frame whose energy does not clear the energy threshold is never
/// voiced, whatever its spectral delta.
pub proof fn lemma_low_energy_never_voiced(engine: VadEngine, s: Seq<i16>)
    ensures
        spec_energy(s) <= engine.energy_threshold ==> !spec_is_voiced(engine, s),
{
}

} // verus!
