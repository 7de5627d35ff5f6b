use meeting_copilot::errors::PipelineError;
use meeting_copilot::llm::{LLMOrchestrator, ModelConfig};

fn config() -> ModelConfig {
    ModelConfig {
        model_path: String::from("models/assistant.gguf"),
        context_size: 2048,
        temperature_milli: 700,
        max_tokens: 256,
    }
}

const SAFETY_PREFIX: &str = "CRITICAL: You are a privacy-first meeting assistant. NEVER suggest recording calls, joining meetings, or sharing sensitive data externally. If exam/proctoring context detected, immediately pause and inform user. Respect all privacy guardrails.";

const SALES_SYSTEM: &str = "You're an expert sales assistant. Help with objection handling, competitive positioning, and next steps. Focus on: customer pain points, value propositions, closing techniques. Keep responses under 2 lines for real-time use.";

const GENERAL_SYSTEM: &str = "You are a helpful meeting assistant. Provide brief, relevant suggestions grounded in the recent conversation. Keep responses under 2 lines for real-time use.";

#[test]
fn generate_before_load_fails() {
    let orch = LLMOrchestrator::new(config());
    let r = orch.generate_stream("a prompt", "general");
    assert!(matches!(r, Err(PipelineError::ModelNotLoaded)));
}

#[test]
fn generate_after_load_yields_completed_stream() {
    let mut orch = LLMOrchestrator::new(config());
    orch.load_model().unwrap();
    let stream = orch.generate_stream("a prompt", "general").unwrap();
    assert_eq!(stream.content, "Generated suggestion based on context");
    assert!(stream.is_complete);
    assert_eq!(stream.token_count, 10);
}

#[test]
fn known_role_selects_its_template() {
    let orch = LLMOrchestrator::new(config());
    let full = orch.build_full_prompt("the prompt", "sales");
    assert_eq!(full, format!("{}\n\n{}\n\nthe prompt", SAFETY_PREFIX, SALES_SYSTEM));
}

#[test]
fn unknown_role_falls_back_to_general_template() {
    let orch = LLMOrchestrator::new(config());
    let full = orch.build_full_prompt("the prompt", "astronaut");
    assert_eq!(full, format!("{}\n\n{}\n\nthe prompt", SAFETY_PREFIX, GENERAL_SYSTEM));
    let general = orch.build_full_prompt("the prompt", "general");
    assert_eq!(general, full);
}

#[test]
fn set_context_accepts_any_context() {
    let mut orch = LLMOrchestrator::new(config());
    orch.set_context("recent transcript window");
    orch.set_context("");
}
