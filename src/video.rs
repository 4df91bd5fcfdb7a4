//! Probed media facts and the errors of the editing pipeline.
use vstd::prelude::*;

verus! {

/// Why a stage of the pipeline stopped.
#[derive(Debug, Clone, PartialEq, Eq)]
pub enum VideoError {
    /// The input file does not exist.
    SourceNotFound(String),
    /// The clip's video codec has no known annex-B conversion.
    UnsupportedCodec(String),
    /// The prober could not report a duration.
    DurationProbeFailed(String),
    /// An external command ended with a failure status.
    ToolchainExecutionFailed(i32, String),
    /// A split into zero parts was asked for.
    NoParts,
    /// The file is neither a known audio nor a known video kind.
    UnknownMediaKind(String),
}

/// Facts probed once from a media file. The duration is kept in whole
/// milliseconds, truncated from what the prober reports.
#[derive(Debug, Clone, PartialEq, Eq)]
pub struct Video {
    pub width: u32,
    pub height: u32,
    pub size: u64,
    pub duration_ms: u64,
    pub format: Option<String>,
    pub path: String,
}

impl Video {
    /// The duration in whole seconds, truncated.
    pub fn duration_seconds(&self) -> (r: u64)
        ensures
            r == self.duration_ms / 1000,
    {
        self.duration_ms / 1000
    }
}

} // verus!
