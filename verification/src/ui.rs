//! Review-platform surface of the engine: pull-request identity, the statuses
//! reported back to users, and the inbound events the platform produces.

use vstd::prelude::*;

use crate::pipeline::{GetPipelineId, PipelineId};
use crate::vcs::Commit;

verus! {

/// Identity of a pull request on the review platform.
///
/// The engine treats it as opaque: it is only compared for equality and
/// carried through to outbound commands.  Its view is the character sequence
/// of the identity.
#[derive(Debug)]
pub struct Pr {
    id: String,
}

impl View for Pr {
    type V = Seq<char>;

    closed spec fn view(&self) -> Seq<char> {
        self.id@
    }
}

impl Pr {
    pub fn new(id: String) -> (r: Pr)
        ensures
            r@ == id@,
    {
        Pr { id }
    }

    /// The name of the remote ref that tracks this pull request; the
    /// version-control system merges from it into staging.
    pub fn remote(&self) -> (r: String)
        ensures
            r@ == self@,
    {
        self.id.clone()
    }

    /// The identity as text, for display by callers outside the engine.
    pub fn text(&self) -> (r: &str)
        ensures
            r@ == self@,
    {
        self.id.as_str()
    }
}

impl Clone for Pr {
    fn clone(&self) -> (r: Self)
        ensures
            r == *self,
    {
        Pr { id: self.id.clone() }
    }
}

impl PartialEq for Pr {
    fn eq(&self, other: &Pr) -> (r: bool)
        ensures
            r == (self@ == other@),
    {
        self.id == other.id
    }
}

impl vstd::std_specs::cmp::PartialEqSpecImpl for Pr {
    open spec fn obeys_eq_spec() -> bool {
        true
    }

    open spec fn eq_spec(&self, other: &Pr) -> bool {
        self@ == other@
    }
}

/// View of an optional build-log URL.
pub open spec fn url_opt_view(u: Option<String>) -> Option<Seq<char>> {
    match u {
        Some(s) => Some(s@),
        None => None,
    }
}

/// A result the engine reports back to users.  Each variant carries the
/// commits it speaks of; the CI variants may carry a build-log URL.
/// `Approved` belongs to the surface for the platform workers' sake; the
/// engine itself never emits it.
#[derive(Debug)]
pub enum Status {
    Approved(Commit),
    StartingBuild(Commit, Commit),
    Testing(Commit, Commit, Option<String>),
    Success(Commit, Commit, Option<String>),
    Failure(Commit, Commit, Option<String>),
    Unmergeable(Commit),
    Unmoveable(Commit, Commit),
    Invalidated,
    NoCommit,
    Completed(Commit, Commit),
}

/// Mathematical view of a [`Status`].
pub ghost enum StatusV {
    Approved(Seq<char>),
    StartingBuild(Seq<char>, Seq<char>),
    Testing(Seq<char>, Seq<char>, Option<Seq<char>>),
    Success(Seq<char>, Seq<char>, Option<Seq<char>>),
    Failure(Seq<char>, Seq<char>, Option<Seq<char>>),
    Unmergeable(Seq<char>),
    Unmoveable(Seq<char>, Seq<char>),
    Invalidated,
    NoCommit,
    Completed(Seq<char>, Seq<char>),
}

impl View for Status {
    type V = StatusV;

    open spec fn view(&self) -> StatusV {
        match self {
            Status::Approved(c) => StatusV::Approved(c@),
            Status::StartingBuild(p, m) => StatusV::StartingBuild(p@, m@),
            Status::Testing(p, m, u) => StatusV::Testing(p@, m@, url_opt_view(*u)),
            Status::Success(p, m, u) => StatusV::Success(p@, m@, url_opt_view(*u)),
            Status::Failure(p, m, u) => StatusV::Failure(p@, m@, url_opt_view(*u)),
            Status::Unmergeable(c) => StatusV::Unmergeable(c@),
            Status::Unmoveable(p, m) => StatusV::Unmoveable(p@, m@),
            Status::Invalidated => StatusV::Invalidated,
            Status::NoCommit => StatusV::NoCommit,
            Status::Completed(p, m) => StatusV::Completed(p@, m@),
        }
    }
}

impl Clone for Status {
    fn clone(&self) -> (r: Self)
        ensures
            r@ == self@,
    {
        match self {
            Status::Approved(c) => Status::Approved(c.clone()),
            Status::StartingBuild(p, m) => Status::StartingBuild(p.clone(), m.clone()),
            Status::Testing(p, m, u) => Status::Testing(p.clone(), m.clone(), clone_url(u)),
            Status::Success(p, m, u) => Status::Success(p.clone(), m.clone(), clone_url(u)),
            Status::Failure(p, m, u) => Status::Failure(p.clone(), m.clone(), clone_url(u)),
            Status::Unmergeable(c) => Status::Unmergeable(c.clone()),
            Status::Unmoveable(p, m) => Status::Unmoveable(p.clone(), m.clone()),
            Status::Invalidated => Status::Invalidated,
            Status::NoCommit => Status::NoCommit,
            Status::Completed(p, m) => Status::Completed(p.clone(), m.clone()),
        }
    }
}

/// Copy an optional URL.
fn clone_url(u: &Option<String>) -> (r: Option<String>)
    ensures
        url_opt_view(r) == url_opt_view(*u),
{
    match u {
        Some(s) => Some(s.clone()),
        None => None,
    }
}

/// Whether two optional URLs show the same text.
fn url_eq(a: &Option<String>, b: &Option<String>) -> (r: bool)
    ensures
        r == (url_opt_view(*a) == url_opt_view(*b)),
{
    match (a, b) {
        (Some(x), Some(y)) => *x == *y,
        (None, None) => true,
        _ => false,
    }
}

impl PartialEq for Status {
    fn eq(&self, other: &Status) -> (r: bool)
        ensures
            r == (self@ == other@),
    {
        match (self, other) {
            (Status::Approved(a), Status::Approved(b)) => a == b,
            (Status::StartingBuild(a, c), Status::StartingBuild(b, d)) => a == b && c == d,
            (Status::Testing(a, c, u), Status::Testing(b, d, v)) => a == b && c == d && url_eq(
                u,
                v,
            ),
            (Status::Success(a, c, u), Status::Success(b, d, v)) => a == b && c == d && url_eq(
                u,
                v,
            ),
            (Status::Failure(a, c, u), Status::Failure(b, d, v)) => a == b && c == d && url_eq(
                u,
                v,
            ),
            (Status::Unmergeable(a), Status::Unmergeable(b)) => a == b,
            (Status::Unmoveable(a, c), Status::Unmoveable(b, d)) => a == b && c == d,
            (Status::Invalidated, Status::Invalidated) => true,
            (Status::NoCommit, Status::NoCommit) => true,
            (Status::Completed(a, c), Status::Completed(b, d)) => a == b && c == d,
            _ => false,
        }
    }
}

impl vstd::std_specs::cmp::PartialEqSpecImpl for Status {
    open spec fn obeys_eq_spec() -> bool {
        true
    }

    open spec fn eq_spec(&self, other: &Status) -> bool {
        self@ == other@
    }
}

/// An inbound event from the review platform.
pub enum Event {
    /// An approval arrived for the pull request; the commit is the reviewed one
    /// where the approval names it, and the string is the merge-commit text.
    Approved(PipelineId, Pr, Option<Commit>, String),
    /// The pull request was opened with the given head commit.
    Opened(PipelineId, Pr, Commit),
    /// The pull request's head moved to the given commit.
    Changed(PipelineId, Pr, Commit),
    /// The pull request was closed.
    Closed(PipelineId, Pr),
    /// A user canceled the pull request's run.
    Canceled(PipelineId, Pr),
}

impl GetPipelineId for Event {
    open spec fn spec_pipeline_id(&self) -> int {
        match self {
            Event::Approved(pid, _, _, _) => pid@,
            Event::Opened(pid, _, _) => pid@,
            Event::Changed(pid, _, _) => pid@,
            Event::Closed(pid, _) => pid@,
            Event::Canceled(pid, _) => pid@,
        }
    }

    fn pipeline_id(&self) -> (r: PipelineId) {
        match self {
            Event::Approved(pid, _, _, _) => *pid,
            Event::Opened(pid, _, _) => *pid,
            Event::Changed(pid, _, _) => *pid,
            Event::Closed(pid, _) => *pid,
            Event::Canceled(pid, _) => *pid,
        }
    }
}

/// An outbound message to the review-platform worker.
pub enum Message {
    SendResult(PipelineId, Pr, Status),
}

} // verus!
