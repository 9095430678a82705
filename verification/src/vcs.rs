//! Version-control surface of the engine: commit identity and the inbound
//! events the VCS worker produces.

use vstd::prelude::*;

use crate::pipeline::{GetPipelineId, PipelineId};

verus! {

/// Identity of a commit in the version-control system.
///
/// The engine treats it as opaque: it is only compared for equality and
/// carried through to outbound commands.  Its view is the character sequence
/// of the identity.
#[derive(Debug)]
pub struct Commit {
    id: String,
}

impl View for Commit {
    type V = Seq<char>;

    closed spec fn view(&self) -> Seq<char> {
        self.id@
    }
}

impl Commit {
    pub fn new(id: String) -> (r: Commit)
        ensures
            r@ == id@,
    {
        Commit { id }
    }

    /// The identity as text, for display by callers outside the engine.
    pub fn text(&self) -> (r: &str)
        ensures
            r@ == self@,
    {
        self.id.as_str()
    }
}

impl Clone for Commit {
    fn clone(&self) -> (r: Self)
        ensures
            r == *self,
    {
        Commit { id: self.id.clone() }
    }
}

impl PartialEq for Commit {
    fn eq(&self, other: &Commit) -> (r: bool)
        ensures
            r == (self@ == other@),
    {
        self.id == other.id
    }
}

impl vstd::std_specs::cmp::PartialEqSpecImpl for Commit {
    open spec fn obeys_eq_spec() -> bool {
        true
    }

    open spec fn eq_spec(&self, other: &Commit) -> bool {
        self@ == other@
    }
}

/// An inbound event from the version-control worker.
pub enum Event {
    /// The pull commit was merged into staging, producing the merge commit.
    MergedToStaging(PipelineId, Commit, Commit),
    /// Merging the pull commit into staging failed.
    FailedMergeToStaging(PipelineId, Commit),
    /// The merge commit was fast-forwarded onto the mainline.
    MovedToMaster(PipelineId, Commit),
    /// Fast-forwarding the merge commit onto the mainline failed.
    FailedMoveToMaster(PipelineId, Commit),
}

impl GetPipelineId for Event {
    open spec fn spec_pipeline_id(&self) -> int {
        match self {
            Event::MergedToStaging(pid, _, _) => pid@,
            Event::FailedMergeToStaging(pid, _) => pid@,
            Event::MovedToMaster(pid, _) => pid@,
            Event::FailedMoveToMaster(pid, _) => pid@,
        }
    }

    fn pipeline_id(&self) -> (r: PipelineId) {
        match self {
            Event::MergedToStaging(pid, _, _) => *pid,
            Event::FailedMergeToStaging(pid, _) => *pid,
            Event::MovedToMaster(pid, _) => *pid,
            Event::FailedMoveToMaster(pid, _) => *pid,
        }
    }
}

/// An outbound message to the version-control worker.
pub enum Message {
    /// Merge the commit into staging with the given merge-commit text,
    /// reading from the given remote.
    MergeToStaging(PipelineId, Commit, String, String),
    /// Fast-forward the mainline to the merge commit.
    MoveStagingToMaster(PipelineId, Commit),
}

} // verus!
