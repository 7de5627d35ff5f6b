use meeting_copilot::errors::PipelineError;
use meeting_copilot::rag::VectorStore;
use meeting_copilot::storage::Database;

#[test]
fn error_messages_are_exact() {
    assert_eq!(PipelineError::DeviceUnavailable.message(), "no input device available");
    assert_eq!(PipelineError::UnsupportedFormat.message(), "no negotiable sample format");
    assert_eq!(PipelineError::ModelNotLoaded.message(), "model not loaded");
    assert_eq!(PipelineError::GenerationTimeout.message(), "generation timed out");
    assert_eq!(PipelineError::AlreadyRunning.message(), "pipeline already running");
}

#[test]
fn empty_vector_store_returns_no_items() {
    let store = VectorStore::new();
    assert!(store.query("recap").is_empty());
}

#[test]
fn database_opens_at_any_path() {
    assert!(Database::new("meetings.db").is_ok());
}
