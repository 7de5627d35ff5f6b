use vstd::prelude::*;
use vstd::string::StringExecFns;
use crate::asr::{transcript_matches, TranscriptResult, WhisperEngine, MIN_TRANSCRIBE_SAMPLES};
use crate::asr::spec_model_info;
use crate::bus::{poll_contract, EventBus, PipelineEvent, PollOutcome, Subscription, SuggestionEvent, SuggestionKind};
use crate::errors::{spec_error_message, PipelineError};
use crate::guardrails::{spec_allowed, GuardrailEngine};
use crate::llm::{LLMOrchestrator, ModelConfig, spec_stub_content};
use crate::router::{router_wf, StateIntentRouter};
use crate::vad::{spec_is_voiced, AudioChunk, VadEngine};

verus! {

// The pipeline controller owns the lifecycle state machine and wires the
// stages together: capture frames enter through `push_frame` (the bounded,
// drop-on-full capture boundary), a worker drains them through
// `process_next` (transcription, routing, guardrail, generation), and
// subscribers read the two broadcast stages through their cursors. The
// asynchronous shell around this core only moves values: every decision is
// made here.

/// The lifecycle state. At most one running pipeline exists per
/// controller; starting a running pipeline is an error, not a queued
/// retry.
#[derive(Clone, Copy, Debug, PartialEq, Eq, Structural)]
pub enum PipelineState {
    Stopped,
    Running,
}

/// The recognized configuration options.
#[derive(Debug)]
pub struct PipelineConfig {
    pub energy_threshold: u32,
    pub spectral_threshold: u32,
    pub frame_size: usize,
    pub sample_rate: u32,
    pub channel_backlog_depth: usize,
    pub generation_timeout_ms: u64,
}

/// Default backlog depth of the capture queue and of both broadcast
/// stages.
pub const DEFAULT_BACKLOG_DEPTH: usize = 100;

/// Default per-generation timeout in milliseconds.
pub const DEFAULT_GENERATION_TIMEOUT_MS: u64 = 10000;

impl Default for PipelineConfig {
    /// The documented default configuration.
    fn default() -> (r: PipelineConfig)
        ensures
            r.energy_threshold == crate::vad::DEFAULT_ENERGY_THRESHOLD,
            r.spectral_threshold == crate::vad::DEFAULT_SPECTRAL_THRESHOLD,
            r.frame_size == crate::vad::DEFAULT_FRAME_SIZE,
            r.sample_rate == crate::vad::DEFAULT_SAMPLE_RATE,
            r.channel_backlog_depth == DEFAULT_BACKLOG_DEPTH,
            r.generation_timeout_ms == DEFAULT_GENERATION_TIMEOUT_MS,
    {
        PipelineConfig {
            energy_threshold: crate::vad::DEFAULT_ENERGY_THRESHOLD,
            spectral_threshold: crate::vad::DEFAULT_SPECTRAL_THRESHOLD,
            frame_size: crate::vad::DEFAULT_FRAME_SIZE,
            sample_rate: crate::vad::DEFAULT_SAMPLE_RATE,
            channel_backlog_depth: DEFAULT_BACKLOG_DEPTH,
            generation_timeout_ms: DEFAULT_GENERATION_TIMEOUT_MS,
        }
    }
}

/// The subscription handles returned by a successful start: cursors at
/// the head of the transcript stream and of the terminal suggestion
/// stream.
#[derive(Clone, Copy, Debug, PartialEq, Eq, Structural)]
pub struct SubscriptionHandles {
    pub transcripts: Subscription,
    pub suggestions: Subscription,
}

/// The outcome of one worker step.
#[derive(Clone, Copy, Debug, PartialEq, Eq, Structural)]
pub enum StepOutcome {
    /// Nothing to do: the pipeline is stopped or the capture queue empty.
    Idle,
    /// The frame was below the minimum viable duration; nothing was
    /// published.
    TooShort,
    /// A transcript was broadcast and the turn ran to a terminal
    /// suggestion event.
    Processed,
}

/// The terminal outcome of one turn.
#[derive(Clone, Copy, Debug, PartialEq, Eq, Structural)]
pub enum TurnOutcome {
    /// A suggestion was generated and broadcast.
    Suggested,
    /// The guardrail gate denied the context; a policy-blocked event was
    /// broadcast and the orchestrator was not consulted.
    Blocked,
    /// A per-turn engine failure; a skipped event carrying the reason was
    /// broadcast.
    SkippedTurn(PipelineError),
}

/// Relies on `uuid::Uuid::new_v4` and its hyphenated `Display` form: a
/// fresh identifier is rendered as 36 characters. Nothing more is assumed
/// of the random value.
#[verifier::external_body]
fn fresh_event_id() -> (r: String)
    ensures
        r@.len() == 36,
{
    uuid::Uuid::new_v4().to_string()
}

/// What the terminal suggestion event of one turn holds, given the guardrail's
/// blocked terms, whether the generation backend is loaded, and the
/// transcript of the turn.
pub open spec fn suggestion_matches(
    ev: SuggestionEvent,
    terms: Seq<Seq<char>>,
    orch_loaded: bool,
    t: TranscriptResult,
) -> bool {
    &&& ev.id@.len() == 36
    &&& if !spec_allowed(terms, t.text@) {
        &&& ev.kind == SuggestionKind::PolicyBlocked
        &&& ev.content@ == "blocked by policy"@
        &&& ev.confidence_pct == t.confidence_pct
    } else if orch_loaded {
        &&& ev.kind == SuggestionKind::Generated
        &&& ev.content@ == spec_stub_content()
        &&& ev.confidence_pct == t.confidence_pct
    } else {
        &&& ev.kind == SuggestionKind::Skipped
        &&& ev.content@ == spec_error_message(PipelineError::ModelNotLoaded)
        &&& ev.confidence_pct == 0
    }
}

/// The turn outcome that corresponds to a terminal suggestion event.
pub open spec fn spec_turn_outcome(terms: Seq<Seq<char>>, orch_loaded: bool, t: TranscriptResult) -> TurnOutcome {
    if !spec_allowed(terms, t.text@) {
        TurnOutcome::Blocked
    } else if orch_loaded {
        TurnOutcome::Suggested
    } else {
        TurnOutcome::SkippedTurn(PipelineError::ModelNotLoaded)
    }
}

/// After one turn: exactly one terminal suggestion event was broadcast,
/// matching the transcript and the guardrail verdict.
pub open spec fn turn_event_published(
    pre: &AudioPipeline,
    post: &AudioPipeline,
    t: TranscriptResult,
) -> bool {
    &&& post.spec_suggestion_log().len() == pre.spec_suggestion_log().len() + 1
    &&& post.spec_suggestion_log().drop_last() == pre.spec_suggestion_log()
    &&& (post.spec_suggestion_log().last() matches PipelineEvent::Suggestion(ev)
        && suggestion_matches(ev, pre.spec_gate_terms(), pre.spec_orch_loaded(), t))
}

/// After one worker step on a running pipeline with a queued frame: the
/// oldest frame left the queue and the rest of the state machine is
/// untouched.
pub open spec fn step_frame_consumed(pre: &AudioPipeline, post: &AudioPipeline) -> bool {
    &&& post.spec_queue() == pre.spec_queue().drop_first()
    &&& post.spec_state() is Running
    &&& post.spec_gate_terms() == pre.spec_gate_terms()
    &&& post.spec_vad() == pre.spec_vad()
    &&& post.spec_orch_loaded() == pre.spec_orch_loaded()
    &&& post.spec_engine_loaded() == pre.spec_engine_loaded()
    &&& post.spec_queue_capacity() == pre.spec_queue_capacity()
    &&& post.spec_backlog_depth() == pre.spec_backlog_depth()
}

/// After one worker step that transcribed a frame: exactly one transcript
/// event was broadcast, matching the consumed frame, and exactly one
/// terminal suggestion event was broadcast, matching that transcript and
/// the guardrail verdict.
pub open spec fn step_events_published(pre: &AudioPipeline, post: &AudioPipeline) -> bool {
    &&& post.spec_transcript_log().len() == pre.spec_transcript_log().len() + 1
    &&& post.spec_transcript_log().drop_last() == pre.spec_transcript_log()
    &&& post.spec_suggestion_log().len() == pre.spec_suggestion_log().len() + 1
    &&& post.spec_suggestion_log().drop_last() == pre.spec_suggestion_log()
    &&& (post.spec_transcript_log().last() matches PipelineEvent::Transcript(t)
        && transcript_matches(t, pre.spec_queue()[0].data@, pre.spec_queue()[0].sample_rate as int)
        && (post.spec_suggestion_log().last() matches PipelineEvent::Suggestion(ev)
        && suggestion_matches(ev, pre.spec_gate_terms(), pre.spec_orch_loaded(), t)))
}

/// The error `start_streaming` returns in a given state.
pub open spec fn spec_start_error(s: PipelineState) -> Option<PipelineError> {
    if s is Running {
        Some(PipelineError::AlreadyRunning)
    } else {
        None
    }
}

/// The state after `start_streaming`: running either way — a rejected
/// start leaves the running pipeline running.
pub open spec fn spec_state_after_start(s: PipelineState) -> PipelineState {
    PipelineState::Running
}

/// The state after `stop`: stopped either way.
pub open spec fn spec_state_after_stop(s: PipelineState) -> PipelineState {
    PipelineState::Stopped
}

/// The streaming inference pipeline: capture gate, bounded capture
/// queue, transcription engine, router, guardrail gate, orchestrator, and
/// the two broadcast stages.
pub struct AudioPipeline {
    vad_engine: VadEngine,
    whisper_engine: WhisperEngine,
    router: StateIntentRouter,
    gate: GuardrailEngine,
    orchestrator: LLMOrchestrator,
    state: PipelineState,
    frame_queue: Vec<AudioChunk>,
    queue_capacity: usize,
    transcript_bus: EventBus,
    suggestion_bus: EventBus,
}

impl AudioPipeline {
    pub closed spec fn spec_state(&self) -> PipelineState {
        self.state
    }

    pub closed spec fn spec_vad(&self) -> VadEngine {
        self.vad_engine
    }

    pub closed spec fn spec_queue(&self) -> Seq<AudioChunk> {
        self.frame_queue@
    }

    pub closed spec fn spec_queue_capacity(&self) -> int {
        self.queue_capacity as int
    }

    pub closed spec fn spec_transcript_log(&self) -> Seq<PipelineEvent> {
        self.transcript_bus.spec_log()
    }

    pub closed spec fn spec_suggestion_log(&self) -> Seq<PipelineEvent> {
        self.suggestion_bus.spec_log()
    }

    pub closed spec fn spec_backlog_depth(&self) -> int {
        self.suggestion_bus.spec_depth()
    }

    pub closed spec fn spec_gate_terms(&self) -> Seq<Seq<char>> {
        self.gate.blocked_view()
    }

    pub closed spec fn spec_engine_loaded(&self) -> bool {
        self.whisper_engine.loaded
    }

    pub closed spec fn spec_orch_loaded(&self) -> bool {
        self.orchestrator.spec_loaded()
    }

    pub closed spec fn wf(&self) -> bool {
        &&& router_wf(&self.router)
        &&& self.orchestrator.wf()
        &&& self.transcript_bus.wf()
        &&& self.suggestion_bus.wf()
        &&& self.transcript_bus.spec_depth() == self.suggestion_bus.spec_depth()
        &&& self.queue_capacity >= 1
        &&& self.frame_queue@.len() <= self.queue_capacity
        &&& self.vad_engine.sample_rate >= 1000
        &&& forall|i: int| 0 <= i < self.frame_queue@.len() ==> (#[trigger] self.frame_queue@[i]).wf()
        &&& (self.state is Running ==> self.whisper_engine.loaded && self.orchestrator.spec_loaded())
        &&& (self.state is Stopped ==> self.frame_queue@.len() == 0)
    }

    /// A stopped pipeline over the default configuration, an open
    /// guardrail gate and unloaded engines.
    pub fn new() -> (r: Result<AudioPipeline, PipelineError>)
        ensures
            r matches Ok(p) && p.wf() && p.spec_state() is Stopped && !p.spec_engine_loaded()
                && !p.spec_orch_loaded() && p.spec_queue().len() == 0 && p.spec_transcript_log()
                == Seq::<PipelineEvent>::empty() && p.spec_suggestion_log()
                == Seq::<PipelineEvent>::empty() && p.spec_gate_terms()
                == Seq::<Seq<char>>::empty() && p.spec_vad() == (VadEngine::spec_default())
                && p.spec_backlog_depth() == DEFAULT_BACKLOG_DEPTH && p.spec_queue_capacity()
                == DEFAULT_BACKLOG_DEPTH,
    {
        let gate = GuardrailEngine::new()?;
        Self::assemble(VadEngine::new(), gate, DEFAULT_BACKLOG_DEPTH)
    }

    /// A stopped pipeline over the given configuration and guardrail
    /// gate.
    pub fn with_config(config: &PipelineConfig, gate: GuardrailEngine) -> (r: Result<
        AudioPipeline,
        PipelineError,
    >)
        requires
            config.channel_backlog_depth >= 1,
            config.sample_rate >= 1000,
        ensures
            r matches Ok(p) && p.wf() && p.spec_state() is Stopped && !p.spec_engine_loaded()
                && !p.spec_orch_loaded() && p.spec_queue().len() == 0 && p.spec_transcript_log()
                == Seq::<PipelineEvent>::empty() && p.spec_suggestion_log()
                == Seq::<PipelineEvent>::empty() && p.spec_gate_terms() == gate.blocked_view()
                && p.spec_vad().energy_threshold == config.energy_threshold
                && p.spec_vad().spectral_threshold == config.spectral_threshold
                && p.spec_vad().sample_rate == config.sample_rate && p.spec_backlog_depth()
                == config.channel_backlog_depth && p.spec_queue_capacity()
                == config.channel_backlog_depth,
    {
        let vad = VadEngine {
            energy_threshold: config.energy_threshold,
            spectral_threshold: config.spectral_threshold,
            frame_size: config.frame_size,
            sample_rate: config.sample_rate,
        };
        Self::assemble(vad, gate, config.channel_backlog_depth)
    }

    fn assemble(vad: VadEngine, gate: GuardrailEngine, depth: usize) -> (r: Result<
        AudioPipeline,
        PipelineError,
    >)
        requires
            depth >= 1,
            vad.sample_rate >= 1000,
        ensures
            r matches Ok(p) && p.wf() && p.spec_state() is Stopped && !p.spec_engine_loaded()
                && !p.spec_orch_loaded() && p.spec_queue().len() == 0 && p.spec_transcript_log()
                == Seq::<PipelineEvent>::empty() && p.spec_suggestion_log()
                == Seq::<PipelineEvent>::empty() && p.spec_gate_terms() == gate.blocked_view()
                && p.spec_vad() == vad && p.spec_backlog_depth() == depth
                && p.spec_queue_capacity() == depth,
    {
        let whisper_engine = WhisperEngine::new("models/ggml-base.en.bin")?;
        let orchestrator = LLMOrchestrator::new(
            ModelConfig {
                model_path: String::from_str("models/assistant.gguf"),
                context_size: 2048,
                temperature_milli: 700,
                max_tokens: 256,
            },
        );
        Ok(
            AudioPipeline {
                vad_engine: vad,
                whisper_engine,
                router: StateIntentRouter::new(),
                gate,
                orchestrator,
                state: PipelineState::Stopped,
                frame_queue: Vec::new(),
                queue_capacity: depth,
                transcript_bus: EventBus::new(depth),
                suggestion_bus: EventBus::new(depth),
            },
        )
    }

    /// Start the pipeline.
    ///
    /// Fails with `AlreadyRunning`, leaving everything untouched, when it
    /// is already running. Otherwise loads the engines, transitions to
    /// `Running`, and returns cursors at the head of both event streams.
    pub fn start_streaming(&mut self) -> (r: Result<SubscriptionHandles, PipelineError>)
        requires
            old(self).wf(),
        ensures
            final(self).wf(),
            r is Err <==> old(self).spec_state() is Running,
            r is Err ==> (r matches Err(e) && spec_start_error(old(self).spec_state()) == Some(e)),
            old(self).spec_state() is Running ==> (r matches Err(e) && e
                == PipelineError::AlreadyRunning && *final(self) == *old(self)),
            final(self).spec_state() == spec_state_after_start(old(self).spec_state()),
            old(self).spec_state() is Stopped ==> (r matches Ok(h) && final(self).spec_state()
                is Running && final(self).spec_engine_loaded() && final(self).spec_orch_loaded()
                && h.transcripts.next as int == final(self).spec_transcript_log().len()
                && h.suggestions.next as int == final(self).spec_suggestion_log().len()),
            final(self).spec_transcript_log() == old(self).spec_transcript_log(),
            final(self).spec_suggestion_log() == old(self).spec_suggestion_log(),
            final(self).spec_queue() == old(self).spec_queue(),
            final(self).spec_gate_terms() == old(self).spec_gate_terms(),
            final(self).spec_vad() == old(self).spec_vad(),
            final(self).spec_backlog_depth() == old(self).spec_backlog_depth(),
            final(self).spec_queue_capacity() == old(self).spec_queue_capacity(),
    {
        match self.state {
            PipelineState::Running => Err(PipelineError::AlreadyRunning),
            PipelineState::Stopped => {
                let _ = self.whisper_engine.load_model();
                let _ = self.orchestrator.load_model();
                self.state = PipelineState::Running;
                Ok(
                    SubscriptionHandles {
                        transcripts: self.transcript_bus.subscribe(),
                        suggestions: self.suggestion_bus.subscribe(),
                    },
                )
            },
        }
    }

    /// Stop the pipeline. Idempotent: stopping a stopped pipeline changes
    /// nothing. Pending capture frames are discarded — no new work is
    /// admitted — while everything already broadcast stays readable.
    pub fn stop(&mut self)
        ensures
            final(self).spec_state() == spec_state_after_stop(old(self).spec_state()),
            old(self).spec_state() is Stopped ==> *final(self) == *old(self),
            old(self).wf() ==> final(self).wf(),
            old(self).spec_state() is Running ==> final(self).spec_queue().len() == 0,
            final(self).spec_transcript_log() == old(self).spec_transcript_log(),
            final(self).spec_suggestion_log() == old(self).spec_suggestion_log(),
            final(self).spec_gate_terms() == old(self).spec_gate_terms(),
            final(self).spec_vad() == old(self).spec_vad(),
            final(self).spec_engine_loaded() == old(self).spec_engine_loaded(),
            final(self).spec_orch_loaded() == old(self).spec_orch_loaded(),
            final(self).spec_backlog_depth() == old(self).spec_backlog_depth(),
            final(self).spec_queue_capacity() == old(self).spec_queue_capacity(),
    {
        match self.state {
            PipelineState::Stopped => {},
            PipelineState::Running => {
                self.state = PipelineState::Stopped;
                self.frame_queue = Vec::new();
            },
        }
    }

    /// Whether the pipeline is running.
    pub fn is_running(&self) -> (r: bool)
        ensures
            r == (self.spec_state() is Running),
    {
        match self.state {
            PipelineState::Running => true,
            PipelineState::Stopped => false,
        }
    }

    /// A one-line health summary: the lifecycle state and each stage's
    /// health.
    pub fn get_status(&self) -> (r: String)
        ensures
            r@ == spec_status(self),
    {
        let mut status = String::from_str("Pipeline running: ");
        if self.is_running() {
            status.append("true");
        } else {
            status.append("false");
        }
        status.append(", VAD: OK, ASR: ");
        let info = self.whisper_engine.get_model_info();
        status.append(info.as_str());
        status
    }

    /// A fresh cursor at the head of the transcript stream.
    pub fn subscribe_transcripts(&self) -> (s: Subscription)
        requires
            self.wf(),
        ensures
            s.next as int == self.spec_transcript_log().len(),
    {
        self.transcript_bus.subscribe()
    }

    /// A fresh cursor at the head of the terminal suggestion stream.
    pub fn subscribe_suggestions(&self) -> (s: Subscription)
        requires
            self.wf(),
        ensures
            s.next as int == self.spec_suggestion_log().len(),
    {
        self.suggestion_bus.subscribe()
    }

    /// Read a subscriber's next transcript-stream event, with the
    /// broadcast stage's explicit backpressure contract: the next event of
    /// the history in publish order, or the exact missed count with
    /// resynchronization to the oldest retained event, or nothing when
    /// caught up.
    pub fn poll_transcripts(&self, sub: &mut Subscription) -> (r: PollOutcome)
        requires
            self.wf(),
        ensures
            poll_contract(self.spec_transcript_log(), self.spec_backlog_depth(), *old(sub), *final(sub), r),
    {
        proof {
            self.transcript_bus.lemma_oldest_is_retained_floor();
        }
        self.transcript_bus.poll(sub)
    }

    /// Read a subscriber's next suggestion-stream event, with the
    /// broadcast stage's explicit backpressure contract: the next event of
    /// the history in publish order, or the exact missed count with
    /// resynchronization to the oldest retained event, or nothing when
    /// caught up.
    pub fn poll_suggestions(&self, sub: &mut Subscription) -> (r: PollOutcome)
        requires
            self.wf(),
        ensures
            poll_contract(self.spec_suggestion_log(), self.spec_backlog_depth(), *old(sub), *final(sub), r),
    {
        proof {
            self.suggestion_bus.lemma_oldest_is_retained_floor();
        }
        self.suggestion_bus.poll(sub)
    }

    /// The capture boundary: classify one frame and attempt a
    /// non-blocking enqueue toward the transcription stage.
    ///
    /// The frame is accepted exactly when the pipeline is running, the
    /// gate calls the frame voiced, and the bounded queue has room; in
    /// every other case it is dropped, never blocked on — a dropped frame
    /// is a lost opportunity, not an error.
    pub fn push_frame(&mut self, data: Vec<i16>, timestamp_ms: u64) -> (accepted: bool)
        requires
            old(self).wf(),
        ensures
            final(self).wf(),
            accepted == (old(self).spec_state() is Running && spec_is_voiced(
                old(self).spec_vad(),
                data@,
            ) && old(self).spec_queue().len() < old(self).spec_queue_capacity()),
            accepted ==> (final(self).spec_queue().len() == old(self).spec_queue().len() + 1
                && final(self).spec_queue() == old(self).spec_queue().push(
                final(self).spec_queue().last(),
            ) && final(self).spec_queue().last().data@ == data@
                && final(self).spec_queue().last().has_voice
                && final(self).spec_queue().last().timestamp_ms == timestamp_ms
                && final(self).spec_queue().last().sample_rate == old(
                self,
            ).spec_vad().sample_rate),
            !accepted ==> final(self).spec_queue() == old(self).spec_queue(),
            final(self).spec_state() == old(self).spec_state(),
            final(self).spec_transcript_log() == old(self).spec_transcript_log(),
            final(self).spec_suggestion_log() == old(self).spec_suggestion_log(),
            final(self).spec_vad() == old(self).spec_vad(),
            final(self).spec_gate_terms() == old(self).spec_gate_terms(),
            final(self).spec_engine_loaded() == old(self).spec_engine_loaded(),
            final(self).spec_orch_loaded() == old(self).spec_orch_loaded(),
            final(self).spec_queue_capacity() == old(self).spec_queue_capacity(),
            final(self).spec_backlog_depth() == old(self).spec_backlog_depth(),
    {
        let running = self.is_running();
        if !running {
            return false;
        }
        let voiced = self.vad_engine.detect_voice(&data);
        if !voiced {
            return false;
        }
        if self.frame_queue.len() >= self.queue_capacity {
            return false;
        }
        let chunk = AudioChunk {
            data,
            sample_rate: self.vad_engine.sample_rate,
            timestamp_ms,
            has_voice: true,
        };
        self.frame_queue.push(chunk);
        true
    }

    /// One worker step: pull the oldest queued voiced frame, transcribe
    /// it, broadcast the transcript, and run the turn to its terminal
    /// suggestion event.
    pub fn process_next(&mut self) -> (r: StepOutcome)
        requires
            old(self).wf(),
            old(self).spec_transcript_log().len() + 1 < u64::MAX,
            old(self).spec_suggestion_log().len() + 1 < u64::MAX,
        ensures
            final(self).wf(),
            (old(self).spec_state() is Stopped || old(self).spec_queue().len() == 0) ==> (r
                == StepOutcome::Idle && *final(self) == *old(self)),
            (old(self).spec_state() is Running && old(self).spec_queue().len() > 0) ==> (
            step_frame_consumed(old(self), final(self))),
            (old(self).spec_state() is Running && old(self).spec_queue().len() > 0 && old(
                self,
            ).spec_queue()[0].data@.len() < MIN_TRANSCRIBE_SAMPLES) ==> (r == StepOutcome::TooShort
                && final(self).spec_transcript_log() == old(self).spec_transcript_log()
                && final(self).spec_suggestion_log() == old(self).spec_suggestion_log()),
            (old(self).spec_state() is Running && old(self).spec_queue().len() > 0 && old(
                self,
            ).spec_queue()[0].data@.len() >= MIN_TRANSCRIBE_SAMPLES) ==> (r
                == StepOutcome::Processed && step_events_published(old(self), final(self))),
    {
        let running = self.is_running();
        if !running {
            return StepOutcome::Idle;
        }
        if self.frame_queue.len() == 0 {
            return StepOutcome::Idle;
        }
        let chunk = self.frame_queue.remove(0);
        proof {
            assert(self.frame_queue@ =~= old(self).frame_queue@.drop_first());
        }
        match self.whisper_engine.transcribe_chunk(&chunk) {
            Ok(None) => StepOutcome::TooShort,
            Ok(Some(transcript)) => {
                self.transcript_bus.publish(PipelineEvent::Transcript(transcript.clone()));
                proof {
                    lemma_push_parts(
                        old(self).transcript_bus.spec_log(),
                        self.transcript_bus.spec_log(),
                    );
                }
                let _ = self.run_turn(&transcript);
                StepOutcome::Processed
            },
            Err(_) => {
                proof {
                    assert(false);
                }
                StepOutcome::Idle
            },
        }
    }

    /// One turn: route the transcript, consult the guardrail gate, and —
    /// only when the guardrail allows — generate; broadcast the terminal
    /// suggestion event either way. A denial is terminal and explicit: a
    /// policy-blocked event, and the orchestrator is left untouched.
    pub fn run_turn(&mut self, transcript: &TranscriptResult) -> (r: TurnOutcome)
        requires
            old(self).wf(),
            old(self).spec_suggestion_log().len() < u64::MAX,
        ensures
            final(self).wf(),
            r == spec_turn_outcome(
                old(self).spec_gate_terms(),
                old(self).spec_orch_loaded(),
                *transcript,
            ),
            turn_event_published(old(self), final(self), *transcript),
            final(self).spec_transcript_log() == old(self).spec_transcript_log(),
            final(self).spec_state() == old(self).spec_state(),
            final(self).spec_queue() == old(self).spec_queue(),
            final(self).spec_gate_terms() == old(self).spec_gate_terms(),
            final(self).spec_vad() == old(self).spec_vad(),
            final(self).spec_engine_loaded() == old(self).spec_engine_loaded(),
            final(self).spec_orch_loaded() == old(self).spec_orch_loaded(),
            final(self).spec_queue_capacity() == old(self).spec_queue_capacity(),
            final(self).spec_backlog_depth() == old(self).spec_backlog_depth(),
    {
        let decision = match self.router.route_request(transcript.text.as_str(), None) {
            Ok(d) => d,
            Err(_) => {
                proof {
                    assert(false);
                }
                return TurnOutcome::Blocked;
            },
        };
        let allowed = self.gate.is_allowed(decision.context.transcript_window.as_str());
        if !allowed {
            let ev = SuggestionEvent {
                id: fresh_event_id(),
                content: String::from_str("blocked by policy"),
                kind: SuggestionKind::PolicyBlocked,
                confidence_pct: transcript.confidence_pct,
            };
            self.suggestion_bus.publish(PipelineEvent::Suggestion(ev));
            proof {
                lemma_push_parts(old(self).suggestion_bus.spec_log(), self.suggestion_bus.spec_log());
            }
            return TurnOutcome::Blocked;
        }
        match self.orchestrator.generate_stream(decision.suggested_prompt.as_str(), "general") {
            Ok(stream) => {
                let ev = SuggestionEvent {
                    id: fresh_event_id(),
                    content: stream.content,
                    kind: SuggestionKind::Generated,
                    confidence_pct: transcript.confidence_pct,
                };
                self.suggestion_bus.publish(PipelineEvent::Suggestion(ev));
                proof {
                    lemma_push_parts(
                        old(self).suggestion_bus.spec_log(),
                        self.suggestion_bus.spec_log(),
                    );
                }
                TurnOutcome::Suggested
            },
            Err(e) => {
                let ev = SuggestionEvent {
                    id: fresh_event_id(),
                    content: String::from_str(e.message()),
                    kind: SuggestionKind::Skipped,
                    confidence_pct: 0,
                };
                self.suggestion_bus.publish(PipelineEvent::Suggestion(ev));
                proof {
                    lemma_push_parts(
                        old(self).suggestion_bus.spec_log(),
                        self.suggestion_bus.spec_log(),
                    );
                }
                TurnOutcome::SkippedTurn(e)
            },
        }
    }
}

pub open spec fn spec_status(p: &AudioPipeline) -> Seq<char> {
    "Pipeline running: "@ + (if p.spec_state() is Running {
        "true"@
    } else {
        "false"@
    }) + ", VAD: OK, ASR: "@ + spec_model_info_of(p)
}

/// The engine-health part of the status line.
pub closed spec fn spec_model_info_of(p: &AudioPipeline) -> Seq<char> {
    spec_model_info(&p.whisper_engine)
}

/// A pushed log is its old part plus its last element.
proof fn lemma_push_parts(pre: Seq<PipelineEvent>, post: Seq<PipelineEvent>)
    requires
        exists|ev: PipelineEvent| post == pre.push(ev),
    ensures
        post.len() == pre.len() + 1,
        post.drop_last() == pre,
        post.last() == choose|ev: PipelineEvent| post == pre.push(ev),
{
    let ev = choose|ev: PipelineEvent| post == pre.push(ev);
    assert(post.drop_last() =~= pre);
}

/// Law: a second start without an intervening stop is rejected with
/// `AlreadyRunning`, and the pipeline remains running.
pub proof fn lemma_second_start_rejected()
    ensures
        spec_start_error(spec_state_after_start(PipelineState::Stopped)) == Some(
            PipelineError::AlreadyRunning,
        ),
        spec_state_after_start(spec_state_after_start(PipelineState::Stopped))
            == PipelineState::Running,
{
}

/// Law: `stop` is idempotent — the state after stopping is stopped,
/// whatever the state was, so a second stop changes nothing.
pub proof fn lemma_stop_idempotent(s: PipelineState)
    ensures
        spec_state_after_stop(spec_state_after_stop(s)) == spec_state_after_stop(s),
        spec_state_after_stop(s) == PipelineState::Stopped,
{
}

/// Law: a denied context yields a policy-blocked terminal event, never a
/// generated suggestion, whatever else holds of the turn.
pub proof fn lemma_denied_context_blocks(
    ev: SuggestionEvent,
    terms: Seq<Seq<char>>,
    orch_loaded: bool,
    t: TranscriptResult,
)
    requires
        suggestion_matches(ev, terms, orch_loaded, t),
        !spec_allowed(terms, t.text@),
    ensures
        ev.kind == SuggestionKind::PolicyBlocked,
        ev.content@ == "blocked by policy"@,
        spec_turn_outcome(terms, orch_loaded, t) == TurnOutcome::Blocked,
{
}

} // verus!
