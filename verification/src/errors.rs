use vstd::prelude::*;

verus! {

/// Error taxonomy of the streaming pipeline.
///
/// `DeviceUnavailable` and `UnsupportedFormat` belong to the capture layer and
/// are fatal to `start_streaming`. `ModelNotLoaded` and `GenerationTimeout`
/// belong to the engine layer and are fatal to a single turn only.
/// `AlreadyRunning` is lifecycle misuse by the caller. A guardrail denial is
/// not an error: it is delivered as a distinct suggestion kind.
#[derive(Clone, Copy, Debug, PartialEq, Eq, Structural)]
pub enum PipelineError {
    DeviceUnavailable,
    UnsupportedFormat,
    ModelNotLoaded,
    GenerationTimeout,
    AlreadyRunning,
}

pub open spec fn spec_error_message(e: PipelineError) -> Seq<char> {
    match e {
        PipelineError::DeviceUnavailable => "no input device available"@,
        PipelineError::UnsupportedFormat => "no negotiable sample format"@,
        PipelineError::ModelNotLoaded => "model not loaded"@,
        PipelineError::GenerationTimeout => "generation timed out"@,
        PipelineError::AlreadyRunning => "pipeline already running"@,
    }
}

impl PipelineError {
    /// A short human-readable description of the error.
    pub fn message(&self) -> (r: &'static str)
        ensures
            r@ == spec_error_message(*self),
    {
        match self {
            PipelineError::DeviceUnavailable => "no input device available",
            PipelineError::UnsupportedFormat => "no negotiable sample format",
            PipelineError::ModelNotLoaded => "model not loaded",
            PipelineError::GenerationTimeout => "generation timed out",
            PipelineError::AlreadyRunning => "pipeline already running",
        }
    }
}

} // verus!
