use meeting_copilot::vad::{
    AudioChunk, VadEngine, DEFAULT_ENERGY_THRESHOLD, DEFAULT_FRAME_SIZE, DEFAULT_SAMPLE_RATE,
    DEFAULT_SPECTRAL_THRESHOLD,
};

fn alternating(amplitude: i16, len: usize) -> Vec<i16> {
    let mut v = Vec::with_capacity(len);
    for i in 0..len {
        if i % 2 == 0 {
            v.push(amplitude);
        } else {
            v.push(-amplitude);
        }
    }
    v
}

#[test]
fn default_configuration() {
    let gate = VadEngine::new();
    assert_eq!(gate.energy_threshold, DEFAULT_ENERGY_THRESHOLD);
    assert_eq!(gate.spectral_threshold, DEFAULT_SPECTRAL_THRESHOLD);
    assert_eq!(gate.frame_size, DEFAULT_FRAME_SIZE);
    assert_eq!(gate.sample_rate, DEFAULT_SAMPLE_RATE);
}

#[test]
fn energy_is_mean_square() {
    let gate = VadEngine::new();
    let frame = vec![1000i16; 8];
    let d = gate.decide(&frame);
    assert_eq!(d.energy, 1_000_000);
}

#[test]
fn spectral_delta_is_mean_abs_first_difference() {
    let gate = VadEngine::new();
    // Differences are |200| at positions 1..=3; the mean divides by 4.
    let frame = alternating(100, 4);
    let d = gate.decide(&frame);
    assert_eq!(d.spectral_delta, 150);
}

#[test]
fn empty_frame_is_silent() {
    let gate = VadEngine::new();
    let frame: Vec<i16> = Vec::new();
    let d = gate.decide(&frame);
    assert!(!d.is_voiced);
    assert_eq!(d.energy, 0);
    assert_eq!(d.spectral_delta, 0);
}

#[test]
fn low_energy_never_voiced_despite_spectral_delta() {
    // Energy equal to the threshold (not above) must silence the frame,
    // whatever the spectral delta says.
    let frame = alternating(100, 16);
    let gate = VadEngine::with_thresholds(10_000, 0);
    let d = gate.decide(&frame);
    assert_eq!(d.energy, 10_000);
    assert!(d.spectral_delta > 0);
    assert!(!d.is_voiced);
}

#[test]
fn voiced_frame_clears_both_thresholds() {
    let gate = VadEngine::new();
    let frame = alternating(500, 1024);
    let d = gate.decide(&frame);
    assert_eq!(d.energy, 250_000);
    assert!(d.is_voiced);
    assert_eq!(gate.detect_voice(&frame), d.is_voiced);
}

#[test]
fn constant_frame_has_zero_spectral_delta() {
    // A flat buzz clears the energy threshold but not the spectral one.
    let gate = VadEngine::new();
    let frame = vec![500i16; 1024];
    let d = gate.decide(&frame);
    assert_eq!(d.energy, 250_000);
    assert_eq!(d.spectral_delta, 0);
    assert!(!d.is_voiced);
}

#[test]
fn chunk_clone_keeps_fields() {
    let chunk = AudioChunk {
        data: vec![1, -2, 3],
        sample_rate: 16_000,
        timestamp_ms: 42,
        has_voice: true,
    };
    let copy = chunk.clone();
    assert_eq!(copy.data, vec![1, -2, 3]);
    assert_eq!(copy.sample_rate, 16_000);
    assert_eq!(copy.timestamp_ms, 42);
    assert!(copy.has_voice);
}
