//! Error kinds of a run, whether each is fatal, and the exit code a run that
//! ends on one returns.
use vstd::prelude::*;
use crate::config::ConfigError;

verus! {

/// What can go wrong in a run.
#[derive(Debug, PartialEq, Eq)]
pub enum PipelineError {
    /// Invalid flags.
    Config(ConfigError),
    /// The source could not be opened, or a live source stalled past its
    /// read timeout.
    SourceOpen,
    /// The output could not be opened.
    SinkOpen,
    /// The model could not be loaded.
    ModelOpen,
    /// Decoding failed for good (`fatal`) or for one frame.
    Decode { fatal: bool },
    /// Inference failed on one batch.
    Inference,
    /// Annotation failed on one frame.
    Annotation,
    /// Encoding failed on one frame (`fatal` once too many failed in a row).
    Encode { fatal: bool },
    /// The container could not be finalised.
    Mux,
}

pub open spec fn fatal_spec(e: PipelineError) -> bool {
    match e {
        PipelineError::Decode { fatal } => fatal,
        PipelineError::Encode { fatal } => fatal,
        PipelineError::Inference => false,
        PipelineError::Annotation => false,
        _ => true,
    }
}

/// Exit code of a run that ends on `e`: 1 for flags, 2 for what fails to
/// open, 3 for anything else.
pub open spec fn exit_code_spec(e: PipelineError) -> i32 {
    match e {
        PipelineError::Config(_) => 1,
        PipelineError::SourceOpen => 2,
        PipelineError::SinkOpen => 2,
        PipelineError::ModelOpen => 2,
        _ => 3,
    }
}

impl PipelineError {
    /// Whether the error ends the run; the others skip a frame or a batch.
    pub fn is_fatal(&self) -> (r: bool)
        ensures
            r == fatal_spec(*self),
    {
        match self {
            PipelineError::Decode { fatal } => *fatal,
            PipelineError::Encode { fatal } => *fatal,
            PipelineError::Inference => false,
            PipelineError::Annotation => false,
            _ => true,
        }
    }

    /// Exit code of a run that ends on this error.
    pub fn exit_code(&self) -> (r: i32)
        ensures
            r == exit_code_spec(*self),
    {
        match self {
            PipelineError::Config(_) => 1,
            PipelineError::SourceOpen => 2,
            PipelineError::SinkOpen => 2,
            PipelineError::ModelOpen => 2,
            _ => 3,
        }
    }
}

/// Exit code of a run: 0 on success, else that of its first fatal error.
pub fn exit_code_of(r: &Result<(), PipelineError>) -> (c: i32)
    ensures
        c == match *r {
            Ok(()) => 0,
            Err(e) => exit_code_spec(e),
        },
{
    match r {
        Ok(()) => 0,
        Err(e) => e.exit_code(),
    }
}

} // verus!
