//! The configuration surface that maps repositories of the review platform
//! to pipelines: which merge queue gates which repository, and which teams
//! may drive it.

use vstd::prelude::*;

use crate::pipeline::PipelineId;

verus! {

/// Identity of a team on the review platform whose members may drive a
/// queue.
#[derive(Clone, Copy, Debug, PartialEq, Eq, Structural, Hash)]
pub struct TeamId(pub u32);

/// A repository on the review platform, named by owner and repository
/// name.
#[derive(Debug)]
pub struct Repo {
    pub owner: String,
    pub repo: String,
}

impl View for Repo {
    type V = (Seq<char>, Seq<char>);

    open spec fn view(&self) -> (Seq<char>, Seq<char>) {
        (self.owner@, self.repo@)
    }
}

impl Clone for Repo {
    fn clone(&self) -> (r: Self)
        ensures
            r == *self,
    {
        Repo { owner: self.owner.clone(), repo: self.repo.clone() }
    }
}

impl PartialEq for Repo {
    fn eq(&self, other: &Repo) -> (r: bool)
        ensures
            r == (self@ == other@),
    {
        self.owner == other.owner && self.repo == other.repo
    }
}

impl vstd::std_specs::cmp::PartialEqSpecImpl for Repo {
    open spec fn obeys_eq_spec() -> bool {
        true
    }

    open spec fn eq_spec(&self, other: &Repo) -> bool {
        self@ == other@
    }
}

/// The pipelines gating one repository: the staging queue, and the try
/// queue where the repository has one.
#[derive(Debug)]
pub struct RepoPipelines {
    pub pipeline_id: PipelineId,
    pub try_pipeline_id: Option<PipelineId>,
}

impl Clone for RepoPipelines {
    fn clone(&self) -> (r: Self)
        ensures
            r == *self,
    {
        RepoPipelines { pipeline_id: self.pipeline_id, try_pipeline_id: self.try_pipeline_id }
    }
}

/// Which of a repository's queues a pipeline is.
#[derive(Clone, Copy, Debug, PartialEq, Eq, Structural)]
pub enum PipelineType {
    Stage,
    Try,
}

/// The repository-to-pipeline mapping; deployments implement it over their
/// configuration.
pub trait ProjectsConfig: Send + Sync + 'static {
    /// The pipelines gating the repository, if it is configured.
    fn pipelines_by_repo(&self, repo: &Repo) -> Option<RepoPipelines>;

    /// The repository a pipeline gates, and which of its queues the
    /// pipeline is.
    fn repo_by_pipeline(&self, pipeline: PipelineId) -> Option<(Repo, PipelineType)>;
}

} // verus!
