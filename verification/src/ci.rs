//! Continuous-integration surface of the engine: the inbound events the CI
//! worker produces and the outbound message that starts a build.

use vstd::prelude::*;

use crate::pipeline::{GetPipelineId, PipelineId};
use crate::vcs::Commit;

verus! {

/// An inbound event from the CI worker.  The optional string is an external
/// URL to the build log.
pub enum Event {
    BuildStarted(PipelineId, Commit, Option<String>),
    BuildFailed(PipelineId, Commit, Option<String>),
    BuildSucceeded(PipelineId, Commit, Option<String>),
}

impl GetPipelineId for Event {
    open spec fn spec_pipeline_id(&self) -> int {
        match self {
            Event::BuildStarted(pid, _, _) => pid@,
            Event::BuildFailed(pid, _, _) => pid@,
            Event::BuildSucceeded(pid, _, _) => pid@,
        }
    }

    fn pipeline_id(&self) -> (r: PipelineId) {
        match self {
            Event::BuildStarted(pid, _, _) => *pid,
            Event::BuildFailed(pid, _, _) => *pid,
            Event::BuildSucceeded(pid, _, _) => *pid,
        }
    }
}

/// An outbound message to the CI worker.
pub enum Message {
    /// Test the given commit.
    StartBuild(PipelineId, Commit),
}

} // verus!
