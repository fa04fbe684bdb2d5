//! The pipeline's error taxonomy and its fatality rule.
//!
//! Fatal conditions end the owning thread and surface to the joining
//! caller; recoverable conditions are contained where they happen with a
//! diagnostic, and the stream goes on.

use vstd::prelude::*;

verus! {

/// What can go wrong in the pipeline.
pub enum PipelineError {
    /// The register source could not be read or did not yield a whole
    /// image: the tick's record must never be delivered partially decoded.
    SourceRead,
    /// A session could not be opened, at startup or at rotation: no
    /// further record could be committed.
    SessionOpen,
    /// One record's write into the active session failed.
    RecordWrite,
    /// A closed archive file could not be offloaded.
    Offload,
    /// A record was sent after the recorder had already terminated: the
    /// benign shutdown race.
    ChannelClosed,
}

impl PipelineError {
    /// Only a source-read failure or a session-open failure ends the
    /// pipeline; everything else is contained and the stream goes on.
    pub open spec fn spec_is_fatal(&self) -> bool {
        self is SourceRead || self is SessionOpen
    }

    /// Decides whether this error must terminate the owning thread.
    pub fn is_fatal(&self) -> (fatal: bool)
        ensures
            fatal == self.spec_is_fatal(),
    {
        match self {
            PipelineError::SourceRead => true,
            PipelineError::SessionOpen => true,
            PipelineError::RecordWrite => false,
            PipelineError::Offload => false,
            PipelineError::ChannelClosed => false,
        }
    }

    /// A diagnostic line for this error.
    pub fn describe(&self) -> (text: String)
        ensures
            self is SourceRead ==> text@ == "register source read failed"@,
            self is SessionOpen ==> text@ == "archive session could not be opened"@,
            self is RecordWrite ==> text@ == "one record's write failed"@,
            self is Offload ==> text@ == "offload of a closed archive failed"@,
            self is ChannelClosed ==> text@ == "record channel closed during shutdown"@,
    {
        match self {
            PipelineError::SourceRead => "register source read failed".to_owned(),
            PipelineError::SessionOpen => "archive session could not be opened".to_owned(),
            PipelineError::RecordWrite => "one record's write failed".to_owned(),
            PipelineError::Offload => "offload of a closed archive failed".to_owned(),
            PipelineError::ChannelClosed => "record channel closed during shutdown".to_owned(),
        }
    }
}

} // verus!
