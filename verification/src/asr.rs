use vstd::prelude::*;
use vstd::string::StringExecFns;
use crate::errors::PipelineError;
use crate::vad::{spec_energy, AudioChunk};

verus! {

// The transcription engine is a capability boundary: a real speech
// recognition backend would stand behind `transcribe_chunk`. The build here
// carries a deterministic stub backend, which satisfies the same contract:
// it derives a phrase and a confidence from the frame's energy alone, so the
// pipeline around it can be exercised without audio hardware or model
// weights.

/// The shortest voiced segment the engine transcribes: 100 ms of audio at
/// the 16 kHz capture rate.
pub const MIN_TRANSCRIBE_SAMPLES: usize = 1600;

/// A transcript event: text, a confidence score, the time span of the
/// segment within the session, and a language tag.
#[derive(Debug, PartialEq, Eq)]
pub struct TranscriptResult {
    pub text: String,
    /// Confidence in percent, 0 to 100.
    pub confidence_pct: u8,
    pub start_ms: u64,
    pub end_ms: u64,
    pub language: String,
}

impl Clone for TranscriptResult {
    fn clone(&self) -> (r: Self)
        ensures
            r == *self,
    {
        TranscriptResult {
            text: self.text.clone(),
            confidence_pct: self.confidence_pct,
            start_ms: self.start_ms,
            end_ms: self.end_ms,
            language: self.language.clone(),
        }
    }
}

/// The speech recognition engine. `loaded` stands for the acquired model
/// resources; transcription before `load_model` fails with `ModelNotLoaded`.
pub struct WhisperEngine {
    pub model_path: String,
    pub loaded: bool,
}

/// The integer square root: the largest `r` with `r * r <= n` (zero for a
/// non-positive argument).
pub open spec fn spec_isqrt(n: int) -> int
    decreases n,
{
    if n <= 0 {
        0
    } else {
        let r = spec_isqrt(n - 1);
        if (r + 1) * (r + 1) <= n {
            r + 1
        } else {
            r
        }
    }
}

/// The root-mean-square level of a frame with the given mean-square
/// energy, scaled to thousandths of full scale (32768 is full scale).
pub open spec fn spec_rms_milli(energy: int) -> int {
    spec_isqrt(energy) * 1000 / 32768
}

/// The stub backend's phrase index for a frame of the given energy: the
/// root-mean-square level in thousandths of full scale, modulo the table.
pub open spec fn spec_phrase_index(energy: int) -> int {
    spec_rms_milli(energy) % 8
}

/// The stub backend's phrase table.
pub open spec fn spec_phrase_at(idx: int) -> Seq<char> {
    if idx == 0 {
        "Hello there"@
    } else if idx == 1 {
        "How are you doing today"@
    } else if idx == 2 {
        "This is a test of the transcription system"@
    } else if idx == 3 {
        "The weather is quite nice"@
    } else if idx == 4 {
        "Let's discuss the project requirements"@
    } else if idx == 5 {
        "I think we should consider the alternatives"@
    } else if idx == 6 {
        "That's an interesting point"@
    } else {
        "Could you elaborate on that"@
    }
}

/// The stub backend's phrase for a frame of the given energy.
pub open spec fn spec_mock_phrase(energy: int) -> Seq<char> {
    spec_phrase_at(spec_phrase_index(energy))
}

/// The stub backend's confidence for a frame of the given energy: between
/// 85 and 100 percent, rising with the frame's root-mean-square level.
pub open spec fn spec_mock_confidence(energy: int) -> int {
    85 + 15 * spec_isqrt(energy) / 32768
}

/// Duration of a frame in milliseconds.
pub open spec fn spec_duration_ms(n_samples: int, sample_rate: int) -> int {
    n_samples * 1000 / sample_rate
}

/// What the transcript of a frame holds, for a loaded engine and a frame of
/// at least the minimum viable duration.
pub open spec fn transcript_matches(t: TranscriptResult, data: Seq<i16>, sample_rate: int) -> bool {
    &&& t.text@ == spec_mock_phrase(spec_energy(data))
    &&& t.confidence_pct == spec_mock_confidence(spec_energy(data))
    &&& t.start_ms == 0
    &&& t.end_ms == spec_duration_ms(data.len() as int, sample_rate)
    &&& t.language@ == "en"@
}

proof fn lemma_isqrt_bounds(n: int)
    requires
        n >= 0,
    ensures
        0 <= spec_isqrt(n),
        spec_isqrt(n) * spec_isqrt(n) <= n,
        n < (spec_isqrt(n) + 1) * (spec_isqrt(n) + 1),
    decreases n,
{
    if n > 0 {
        lemma_isqrt_bounds(n - 1);
        let r = spec_isqrt(n - 1);
        if (r + 1) * (r + 1) <= n {
            assert(n <= (r + 1) * (r + 1));
            assert((r + 2) * (r + 2) > (r + 1) * (r + 1)) by (nonlinear_arith)
                requires
                    r >= 0,
            ;
        }
    }
}

/// The integer square root is the only value within its bounds.
proof fn lemma_isqrt_unique(n: int, r: int)
    requires
        0 <= r,
        r * r <= n,
        n < (r + 1) * (r + 1),
    ensures
        r == spec_isqrt(n),
{
    lemma_isqrt_bounds(n);
    let q = spec_isqrt(n);
    if r < q {
        assert((r + 1) * (r + 1) <= q * q) by (nonlinear_arith)
            requires
                0 <= r + 1 <= q,
        ;
    }
    if q < r {
        assert((q + 1) * (q + 1) <= r * r) by (nonlinear_arith)
            requires
                0 <= q + 1 <= r,
        ;
    }
}

/// The largest `r` with `r * r <= n`, by bisection.
fn isqrt32(n: u32) -> (r: u32)
    ensures
        r as int == spec_isqrt(n as int),
        r <= 0xffff,
{
    let mut lo: u32 = 0;
    let mut hi: u32 = 0x10000;
    while lo + 1 < hi
        invariant
            lo < hi,
            hi <= 0x10000,
            (lo as int) * (lo as int) <= n as int,
            (n as int) < (hi as int) * (hi as int),
        decreases hi - lo,
    {
        let mid: u32 = lo + (hi - lo) / 2;
        proof {
            assert((mid as int) * (mid as int) <= 0x100000000) by (nonlinear_arith)
                requires
                    0 <= mid as int <= 0x10000,
            ;
        }
        if (mid as u64) * (mid as u64) <= (n as u64) {
            lo = mid;
        } else {
            hi = mid;
        }
    }
    proof {
        lemma_isqrt_unique(n as int, lo as int);
    }
    lo
}

fn mock_phrase(idx: u32) -> (r: &'static str)
    requires
        idx < 8,
    ensures
        r@ == spec_phrase_at(idx as int),
{
    if idx == 0 {
        "Hello there"
    } else if idx == 1 {
        "How are you doing today"
    } else if idx == 2 {
        "This is a test of the transcription system"
    } else if idx == 3 {
        "The weather is quite nice"
    } else if idx == 4 {
        "Let's discuss the project requirements"
    } else if idx == 5 {
        "I think we should consider the alternatives"
    } else if idx == 6 {
        "That's an interesting point"
    } else {
        "Could you elaborate on that"
    }
}

impl WhisperEngine {
    /// An engine pointed at the given model resources; nothing is acquired
    /// until `load_model`.
    pub fn new(model_path: &str) -> (r: Result<WhisperEngine, PipelineError>)
        ensures
            r is Ok,
            r->Ok_0.model_path@ == model_path@,
            !r->Ok_0.loaded,
    {
        Ok(WhisperEngine { model_path: String::from_str(model_path), loaded: false })
    }

    /// One-time model acquisition. Idempotent: loading a loaded engine
    /// leaves it loaded and succeeds.
    pub fn load_model(&mut self) -> (r: Result<(), PipelineError>)
        ensures
            r is Ok,
            final(self).loaded,
            final(self).model_path == old(self).model_path,
    {
        self.loaded = true;
        Ok(())
    }

    /// Transcribe one voiced frame.
    ///
    /// Fails with `ModelNotLoaded` before `load_model`; returns `None`,
    /// never an error, for a frame shorter than the minimum viable
    /// duration; otherwise returns exactly one transcript event whose time
    /// span covers the frame's duration.
    pub fn transcribe_chunk(&self, audio_chunk: &AudioChunk) -> (r: Result<
        Option<TranscriptResult>,
        PipelineError,
    >)
        requires
            audio_chunk.wf(),
        ensures
            !self.loaded ==> r == Result::<Option<TranscriptResult>, PipelineError>::Err(
                PipelineError::ModelNotLoaded,
            ),
            self.loaded && audio_chunk.data@.len() < MIN_TRANSCRIBE_SAMPLES ==> (r matches Ok(o)
                && o is None),
            self.loaded && audio_chunk.data@.len() >= MIN_TRANSCRIBE_SAMPLES ==> (r matches Ok(o)
                && o matches Some(t) && transcript_matches(
                t,
                audio_chunk.data@,
                audio_chunk.sample_rate as int,
            )),
    {
        if !self.loaded {
            return Err(PipelineError::ModelNotLoaded);
        }
        if audio_chunk.data.len() < MIN_TRANSCRIBE_SAMPLES {
            return Ok(None);
        }
        Ok(Some(self.mock_transcribe(audio_chunk)))
    }

    /// The deterministic stub backend: phrase and confidence derived from
    /// the frame's energy, span from its length and rate.
    fn mock_transcribe(&self, audio_chunk: &AudioChunk) -> (t: TranscriptResult)
        requires
            audio_chunk.wf(),
        ensures
            transcript_matches(t, audio_chunk.data@, audio_chunk.sample_rate as int),
    {
        let gate = crate::vad::VadEngine::new();
        let decision = gate.decide(&audio_chunk.data);
        let energy: u32 = decision.energy;
        let rms: u32 = isqrt32(energy);
        let text = mock_phrase(rms * 1000 / 32768 % 8);
        let confidence_pct: u8 = (85 + 15 * rms / 32768) as u8;
        let n: usize = audio_chunk.data.len();
        let end_wide: u128 = (n as u128) * 1000 / (audio_chunk.sample_rate as u128);
        proof {
            let len = n as int;
            let rate = audio_chunk.sample_rate as int;
            assert(len * 1000 <= len * rate) by (nonlinear_arith)
                requires
                    rate >= 1000,
                    len >= 0,
            ;
            vstd::arithmetic::div_mod::lemma_div_is_ordered(len * 1000, len * rate, rate);
            vstd::arithmetic::div_mod::lemma_div_by_multiple(len, rate);
            assert(len * 1000 / rate <= len);
        }
        let end_ms: u64 = end_wide as u64;
        TranscriptResult {
            text: String::from_str(text),
            confidence_pct,
            start_ms: 0,
            end_ms,
            language: String::from_str("en"),
        }
    }

    /// A one-line health description of the engine.
    pub fn get_model_info(&self) -> (r: String)
        ensures
            r@ == spec_model_info(self),
    {
        let mut info = String::from_str("Whisper model: ");
        info.append(self.model_path.as_str());
        info.append(" (loaded: ");
        if self.loaded {
            info.append("true");
        } else {
            info.append("false");
        }
        info.append(")");
        info
    }
}

/// Law: a voiced segment of at least the minimum viable duration yields a
/// transcript whose time span covers the fed duration exactly, starting
/// at the segment's own origin.
pub proof fn lemma_transcript_span_covers_duration(
    t: TranscriptResult,
    data: Seq<i16>,
    sample_rate: int,
)
    requires
        transcript_matches(t, data, sample_rate),
    ensures
        t.start_ms == 0,
        t.end_ms - t.start_ms == spec_duration_ms(data.len() as int, sample_rate),
{
}

pub open spec fn spec_model_info(e: &WhisperEngine) -> Seq<char> {
    "Whisper model: "@ + e.model_path@ + " (loaded: "@ + (if e.loaded {
        "true"@
    } else {
        "false"@
    }) + ")"@
}

} // verus!
