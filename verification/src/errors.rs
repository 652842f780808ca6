//! The error taxonomy that crosses the foreign boundary.
//!
//! Every failure inside the library is mapped to one of these codes; no
//! failure may unwind across the boundary.  The integer codes are part of the
//! public contract and are never renumbered.

use vstd::prelude::*;

verus! {

/// Outcome of creating an execution session.
#[derive(Debug, Copy, Clone, PartialEq, Eq, Structural)]
pub enum CreateRunnerError {
    NoError,
    PathMissingOrInvalid,
    ExecutionProviderRegistrationError,
    ModelLoadingError,
    UnknownError,
}

impl CreateRunnerError {
    /// The stable integer code for this outcome: 0 means "no error".
    pub open spec fn spec_code(self) -> int {
        match self {
            CreateRunnerError::NoError => 0,
            CreateRunnerError::PathMissingOrInvalid => 1,
            CreateRunnerError::ExecutionProviderRegistrationError => 2,
            CreateRunnerError::ModelLoadingError => 3,
            CreateRunnerError::UnknownError => 4,
        }
    }

    /// The code handed across the foreign boundary.
    pub fn code(&self) -> (c: i32)
        ensures
            c == self.spec_code(),
    {
        match self {
            CreateRunnerError::NoError => 0,
            CreateRunnerError::PathMissingOrInvalid => 1,
            CreateRunnerError::ExecutionProviderRegistrationError => 2,
            CreateRunnerError::ModelLoadingError => 3,
            CreateRunnerError::UnknownError => 4,
        }
    }
}

/// Outcome of one segmentation request.
#[derive(Debug, Copy, Clone, PartialEq, Eq, Structural)]
pub enum SegmentImageError {
    NoError,
    NoRunner,
    InvalidInput,
    PreProcessingError,
    ModelExecutionError,
    PostProcessingError,
    UnknownError,
}

impl SegmentImageError {
    /// The stable integer code for this outcome: 0 means "no error".
    pub open spec fn spec_code(self) -> int {
        match self {
            SegmentImageError::NoError => 0,
            SegmentImageError::NoRunner => 1,
            SegmentImageError::InvalidInput => 2,
            SegmentImageError::PreProcessingError => 3,
            SegmentImageError::ModelExecutionError => 4,
            SegmentImageError::PostProcessingError => 5,
            SegmentImageError::UnknownError => 6,
        }
    }

    /// The code handed across the foreign boundary.
    pub fn code(&self) -> (c: i32)
        ensures
            c == self.spec_code(),
    {
        match self {
            SegmentImageError::NoError => 0,
            SegmentImageError::NoRunner => 1,
            SegmentImageError::InvalidInput => 2,
            SegmentImageError::PreProcessingError => 3,
            SegmentImageError::ModelExecutionError => 4,
            SegmentImageError::PostProcessingError => 5,
            SegmentImageError::UnknownError => 6,
        }
    }
}

} // verus!
