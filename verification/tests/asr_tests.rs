use meeting_copilot::asr::{WhisperEngine, MIN_TRANSCRIBE_SAMPLES};
use meeting_copilot::errors::PipelineError;
use meeting_copilot::vad::AudioChunk;

fn chunk_of(data: Vec<i16>) -> AudioChunk {
    AudioChunk { data, sample_rate: 16_000, timestamp_ms: 0, has_voice: true }
}

#[test]
fn transcribe_before_load_fails() {
    let engine = WhisperEngine::new("models/ggml-base.en.bin").unwrap();
    let chunk = chunk_of(vec![0i16; MIN_TRANSCRIBE_SAMPLES]);
    let r = engine.transcribe_chunk(&chunk);
    assert_eq!(r, Err(PipelineError::ModelNotLoaded));
}

#[test]
fn short_frame_yields_none_never_an_error() {
    let mut engine = WhisperEngine::new("models/ggml-base.en.bin").unwrap();
    engine.load_model().unwrap();
    let chunk = chunk_of(vec![5i16; MIN_TRANSCRIBE_SAMPLES - 1]);
    assert_eq!(engine.transcribe_chunk(&chunk), Ok(None));
    let empty = chunk_of(Vec::new());
    assert_eq!(engine.transcribe_chunk(&empty), Ok(None));
}

#[test]
fn load_is_idempotent() {
    let mut engine = WhisperEngine::new("models/ggml-base.en.bin").unwrap();
    engine.load_model().unwrap();
    engine.load_model().unwrap();
    let chunk = chunk_of(vec![0i16; MIN_TRANSCRIBE_SAMPLES]);
    assert!(engine.transcribe_chunk(&chunk).is_ok());
}

#[test]
fn silent_frame_transcript_is_exact() {
    let mut engine = WhisperEngine::new("models/ggml-base.en.bin").unwrap();
    engine.load_model().unwrap();
    // Root-mean-square 0: phrase index 0, confidence 85, 100 ms at 16 kHz.
    let chunk = chunk_of(vec![0i16; 1600]);
    let t = engine.transcribe_chunk(&chunk).unwrap().unwrap();
    assert_eq!(t.text, "Hello there");
    assert_eq!(t.confidence_pct, 85);
    assert_eq!(t.start_ms, 0);
    assert_eq!(t.end_ms, 100);
    assert_eq!(t.language, "en");
}

#[test]
fn half_scale_frame_picks_phrase_by_rms() {
    let mut engine = WhisperEngine::new("models/ggml-base.en.bin").unwrap();
    engine.load_model().unwrap();
    // Constant half-scale samples: rms 16384 of 32768, so the scaled level
    // is 500, the phrase index 500 % 8 == 4, and the confidence
    // 85 + 15 * 16384 / 32768 == 92.
    let chunk = chunk_of(vec![16384i16; 16000]);
    let t = engine.transcribe_chunk(&chunk).unwrap().unwrap();
    assert_eq!(t.text, "Let's discuss the project requirements");
    assert_eq!(t.confidence_pct, 92);
    assert_eq!(t.end_ms, 1000);
}

#[test]
fn quiet_frame_picks_phrase_by_rms() {
    let mut engine = WhisperEngine::new("models/ggml-base.en.bin").unwrap();
    engine.load_model().unwrap();
    // Samples of 101: rms 101, scaled level 101000 / 32768 == 3.
    let chunk = chunk_of(vec![101i16; 1600]);
    let t = engine.transcribe_chunk(&chunk).unwrap().unwrap();
    assert_eq!(t.text, "The weather is quite nice");
    assert_eq!(t.confidence_pct, 85);
}

#[test]
fn span_covers_fed_duration() {
    let mut engine = WhisperEngine::new("models/ggml-base.en.bin").unwrap();
    engine.load_model().unwrap();
    // 3200 samples at 16 kHz are 200 ms.
    let chunk = chunk_of(vec![0i16; 3200]);
    let t = engine.transcribe_chunk(&chunk).unwrap().unwrap();
    assert_eq!(t.end_ms - t.start_ms, 200);
}

#[test]
fn model_info_reports_path_and_loaded_state() {
    let mut engine = WhisperEngine::new("models/ggml-base.en.bin").unwrap();
    assert_eq!(engine.get_model_info(), "Whisper model: models/ggml-base.en.bin (loaded: false)");
    engine.load_model().unwrap();
    assert_eq!(engine.get_model_info(), "Whisper model: models/ggml-base.en.bin (loaded: true)");
}
