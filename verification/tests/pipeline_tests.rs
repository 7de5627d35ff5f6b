use meeting_copilot::bus::{PipelineEvent, PollOutcome, SuggestionKind};
use meeting_copilot::errors::PipelineError;
use meeting_copilot::guardrails::GuardrailEngine;
use meeting_copilot::pipeline::{AudioPipeline, PipelineConfig, StepOutcome};

fn voiced_frame(len: usize) -> Vec<i16> {
    let mut v = Vec::with_capacity(len);
    for i in 0..len {
        if i % 2 == 0 {
            v.push(500i16);
        } else {
            v.push(-500i16);
        }
    }
    v
}

fn config_with_depth(depth: usize) -> PipelineConfig {
    PipelineConfig {
        energy_threshold: 1,
        spectral_threshold: 1,
        frame_size: 1024,
        sample_rate: 16_000,
        channel_backlog_depth: depth,
        generation_timeout_ms: 10_000,
    }
}

#[test]
fn second_start_is_rejected_and_pipeline_stays_running() {
    let mut p = AudioPipeline::new().unwrap();
    assert!(p.start_streaming().is_ok());
    assert!(p.is_running());
    let second = p.start_streaming();
    assert!(matches!(second, Err(PipelineError::AlreadyRunning)));
    assert!(p.is_running());
}

#[test]
fn stop_on_stopped_pipeline_is_a_noop() {
    let mut p = AudioPipeline::new().unwrap();
    assert!(!p.is_running());
    p.stop();
    assert!(!p.is_running());
    p.stop();
    assert!(!p.is_running());
}

#[test]
fn start_stop_start_cycles() {
    let mut p = AudioPipeline::new().unwrap();
    assert!(p.start_streaming().is_ok());
    p.stop();
    assert!(!p.is_running());
    assert!(p.start_streaming().is_ok());
    assert!(p.is_running());
}

#[test]
fn status_reports_state_and_engine_health() {
    let mut p = AudioPipeline::new().unwrap();
    assert_eq!(
        p.get_status(),
        "Pipeline running: false, VAD: OK, ASR: Whisper model: models/ggml-base.en.bin (loaded: false)"
    );
    p.start_streaming().unwrap();
    assert_eq!(
        p.get_status(),
        "Pipeline running: true, VAD: OK, ASR: Whisper model: models/ggml-base.en.bin (loaded: true)"
    );
}

#[test]
fn frames_are_dropped_while_stopped_or_silent() {
    let gate = GuardrailEngine::new().unwrap();
    let mut p = AudioPipeline::with_config(&config_with_depth(4), gate).unwrap();
    // Stopped: even a voiced frame is dropped.
    assert!(!p.push_frame(voiced_frame(3200), 0));
    p.start_streaming().unwrap();
    // Running but silent: dropped by the voice verdict.
    assert!(!p.push_frame(vec![0i16; 3200], 0));
    // Running and voiced: accepted.
    assert!(p.push_frame(voiced_frame(3200), 0));
}

#[test]
fn full_capture_queue_drops_instead_of_blocking() {
    let gate = GuardrailEngine::new().unwrap();
    let mut p = AudioPipeline::with_config(&config_with_depth(1), gate).unwrap();
    p.start_streaming().unwrap();
    assert!(p.push_frame(voiced_frame(3200), 0));
    assert!(!p.push_frame(voiced_frame(3200), 1));
    assert_eq!(p.process_next(), StepOutcome::Processed);
    assert!(p.push_frame(voiced_frame(3200), 2));
}

#[test]
fn idle_when_nothing_is_queued() {
    let mut p = AudioPipeline::new().unwrap();
    p.start_streaming().unwrap();
    assert_eq!(p.process_next(), StepOutcome::Idle);
}

#[test]
fn short_voiced_frame_publishes_nothing() {
    let gate = GuardrailEngine::new().unwrap();
    let mut p = AudioPipeline::with_config(&config_with_depth(4), gate).unwrap();
    let handles = p.start_streaming().unwrap();
    assert!(p.push_frame(voiced_frame(400), 0));
    assert_eq!(p.process_next(), StepOutcome::TooShort);
    let mut transcripts = handles.transcripts;
    let mut suggestions = handles.suggestions;
    assert!(matches!(p.poll_transcripts(&mut transcripts), PollOutcome::Empty));
    assert!(matches!(p.poll_suggestions(&mut suggestions), PollOutcome::Empty));
}

#[test]
fn round_trip_produces_exactly_one_transcript_covering_the_duration() {
    let gate = GuardrailEngine::new().unwrap();
    let mut p = AudioPipeline::with_config(&config_with_depth(4), gate).unwrap();
    let handles = p.start_streaming().unwrap();
    // 3200 samples at 16 kHz: 200 ms of synthetic voiced content.
    assert!(p.push_frame(voiced_frame(3200), 0));
    assert_eq!(p.process_next(), StepOutcome::Processed);
    let mut transcripts = handles.transcripts;
    match p.poll_transcripts(&mut transcripts) {
        PollOutcome::Event(PipelineEvent::Transcript(t)) => {
            assert_eq!(t.start_ms, 0);
            assert_eq!(t.end_ms - t.start_ms, 200);
            assert_eq!(t.text, "Could you elaborate on that");
            assert_eq!(t.confidence_pct, 85);
            assert_eq!(t.language, "en");
        },
        other => panic!("expected one transcript event, got {:?}", other),
    }
    // Exactly one: the stream is drained afterwards.
    assert!(matches!(p.poll_transcripts(&mut transcripts), PollOutcome::Empty));
}

#[test]
fn allowed_turn_generates_a_suggestion() {
    let gate = GuardrailEngine::new().unwrap();
    let mut p = AudioPipeline::with_config(&config_with_depth(4), gate).unwrap();
    let handles = p.start_streaming().unwrap();
    assert!(p.push_frame(voiced_frame(3200), 0));
    assert_eq!(p.process_next(), StepOutcome::Processed);
    let mut suggestions = handles.suggestions;
    match p.poll_suggestions(&mut suggestions) {
        PollOutcome::Event(PipelineEvent::Suggestion(ev)) => {
            assert_eq!(ev.kind, SuggestionKind::Generated);
            assert_eq!(ev.content, "Generated suggestion based on context");
            assert_eq!(ev.confidence_pct, 85);
            assert_eq!(ev.id.len(), 36);
        },
        other => panic!("expected one suggestion event, got {:?}", other),
    }
    assert!(matches!(p.poll_suggestions(&mut suggestions), PollOutcome::Empty));
}

#[test]
fn denied_context_yields_policy_blocked_and_no_generation() {
    // The stub transcript of the fed frame is "Could you elaborate on
    // that"; blocking "elaborate" denies the turn at the guardrail.
    let gate = GuardrailEngine::with_blocked_terms(vec![String::from("elaborate")]);
    let mut p = AudioPipeline::with_config(&config_with_depth(4), gate).unwrap();
    let handles = p.start_streaming().unwrap();
    assert!(p.push_frame(voiced_frame(3200), 0));
    assert_eq!(p.process_next(), StepOutcome::Processed);
    let mut suggestions = handles.suggestions;
    match p.poll_suggestions(&mut suggestions) {
        PollOutcome::Event(PipelineEvent::Suggestion(ev)) => {
            assert_eq!(ev.kind, SuggestionKind::PolicyBlocked);
            assert_eq!(ev.content, "blocked by policy");
            assert_eq!(ev.id.len(), 36);
        },
        other => panic!("expected a policy-blocked event, got {:?}", other),
    }
    // The blocked turn produced no generated suggestion at all.
    assert!(matches!(p.poll_suggestions(&mut suggestions), PollOutcome::Empty));
}

#[test]
fn lagging_subscriber_observes_missed_count_not_silent_loss() {
    let gate = GuardrailEngine::new().unwrap();
    let mut p = AudioPipeline::with_config(&config_with_depth(2), gate).unwrap();
    let handles = p.start_streaming().unwrap();
    // Five turns publish five suggestion events into a backlog of two
    // while the subscriber reads nothing.
    for i in 0..5u64 {
        assert!(p.push_frame(voiced_frame(3200), i));
        assert_eq!(p.process_next(), StepOutcome::Processed);
    }
    let mut suggestions = handles.suggestions;
    match p.poll_suggestions(&mut suggestions) {
        PollOutcome::Lagged { missed } => assert_eq!(missed, 3),
        other => panic!("expected an explicit missed count, got {:?}", other),
    }
    // Resynchronized: the two retained events, then empty.
    assert!(matches!(
        p.poll_suggestions(&mut suggestions),
        PollOutcome::Event(PipelineEvent::Suggestion(_))
    ));
    assert!(matches!(
        p.poll_suggestions(&mut suggestions),
        PollOutcome::Event(PipelineEvent::Suggestion(_))
    ));
    assert!(matches!(p.poll_suggestions(&mut suggestions), PollOutcome::Empty));
}

#[test]
fn distinct_suggestion_ids_per_turn() {
    let gate = GuardrailEngine::new().unwrap();
    let mut p = AudioPipeline::with_config(&config_with_depth(4), gate).unwrap();
    let handles = p.start_streaming().unwrap();
    for i in 0..2u64 {
        assert!(p.push_frame(voiced_frame(3200), i));
        assert_eq!(p.process_next(), StepOutcome::Processed);
    }
    let mut suggestions = handles.suggestions;
    let first = match p.poll_suggestions(&mut suggestions) {
        PollOutcome::Event(PipelineEvent::Suggestion(ev)) => ev.id,
        other => panic!("expected a suggestion event, got {:?}", other),
    };
    let second = match p.poll_suggestions(&mut suggestions) {
        PollOutcome::Event(PipelineEvent::Suggestion(ev)) => ev.id,
        other => panic!("expected a suggestion event, got {:?}", other),
    };
    assert_ne!(first, second);
}

#[test]
fn stop_discards_pending_frames() {
    let gate = GuardrailEngine::new().unwrap();
    let mut p = AudioPipeline::with_config(&config_with_depth(4), gate).unwrap();
    p.start_streaming().unwrap();
    assert!(p.push_frame(voiced_frame(3200), 0));
    p.stop();
    assert_eq!(p.process_next(), StepOutcome::Idle);
}
