pub mod asr;
pub mod bus;
pub mod errors;
pub mod rag;
pub mod storage;
pub mod guardrails;
pub mod llm;
pub mod pipeline;
pub mod router;
pub mod vad;
