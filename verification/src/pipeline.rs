//! The per-pipeline engine: one inbound event at a time is interpreted
//! against the store, the store is moved, and outbound commands for the
//! three collaborator workers come back.
//!
//! The meaning of every event is written down once, as the mathematical
//! transition [`step`] over the store model; the executable engine
//! [`handle`] is verified to produce exactly that transition.  After every
//! event the promotion rule runs: if nothing is running and the queue is
//! non-empty, the head is promoted into the running slot and a staging
//! merge is commanded.

use vstd::prelude::*;

use crate::ci;
use crate::db::{
    commit_opt_view, queue_without, queue_without_stale, running_canceled, running_canceled_stale,
    stale_cancel_affects, Db, PendingEntry, QueueEntry, QueueEntryV, RunningEntry, RunningEntryV,
};
use crate::ui;
use crate::ui::{url_opt_view, Pr, Status, StatusV};
use crate::vcs;
use crate::vcs::Commit;

verus! {

/// Identity of one merge queue.  Different pipelines share nothing except
/// the store backend; every event names the pipeline it belongs to.
#[derive(Clone, Copy, Debug, PartialEq, Eq, Structural, Hash)]
pub struct PipelineId(pub i32);

impl View for PipelineId {
    type V = int;

    open spec fn view(&self) -> int {
        self.0 as int
    }
}

/// Read the pipeline a value belongs to.
pub trait GetPipelineId {
    /// The pipeline the value names.
    spec fn spec_pipeline_id(&self) -> int;

    /// The pipeline the value names.
    fn pipeline_id(&self) -> (r: PipelineId)
        ensures
            r@ == self.spec_pipeline_id(),
    ;
}

/// The capability to start a CI build; the CI worker implements it.
pub trait Ci {
    fn start_build(&self, pipeline_id: PipelineId, commit: Commit);
}

/// The capability to report a status for a pull request; the review-platform
/// worker implements it.
pub trait Ui {
    fn send_result(&self, pipeline_id: PipelineId, pr: Pr, status: Status);
}

/// The capabilities to move commits; the version-control worker implements
/// them.
pub trait Vcs {
    fn merge_to_staging(
        &self,
        pipeline_id: PipelineId,
        pull_commit: Commit,
        message: String,
        remote: String,
    );

    fn move_staging_to_master(&self, pipeline_id: PipelineId, merge_commit: Commit);
}

/// An inbound event, from any of the three collaborator workers.
pub enum Event {
    UiEvent(ui::Event),
    VcsEvent(vcs::Event),
    CiEvent(ci::Event),
}

/// Mathematical view of an inbound event, with the pipeline id stripped.
pub ghost enum EventV {
    Approved { pr: Seq<char>, reviewed: Option<Seq<char>>, message: Seq<char> },
    Opened { pr: Seq<char>, commit: Seq<char> },
    Changed { pr: Seq<char>, commit: Seq<char> },
    Closed { pr: Seq<char> },
    Canceled { pr: Seq<char> },
    MergedToStaging { pull: Seq<char>, merge: Seq<char> },
    FailedMergeToStaging { pull: Seq<char> },
    MovedToMaster { merge: Seq<char> },
    FailedMoveToMaster { merge: Seq<char> },
    BuildStarted { commit: Seq<char>, url: Option<Seq<char>> },
    BuildFailed { commit: Seq<char>, url: Option<Seq<char>> },
    BuildSucceeded { commit: Seq<char>, url: Option<Seq<char>> },
}

impl View for Event {
    type V = EventV;

    open spec fn view(&self) -> EventV {
        match self {
            Event::UiEvent(e) => match e {
                ui::Event::Approved(_, pr, commit, message) => EventV::Approved {
                    pr: pr@,
                    reviewed: commit_opt_view(*commit),
                    message: message@,
                },
                ui::Event::Opened(_, pr, commit) => EventV::Opened { pr: pr@, commit: commit@ },
                ui::Event::Changed(_, pr, commit) => EventV::Changed { pr: pr@, commit: commit@ },
                ui::Event::Closed(_, pr) => EventV::Closed { pr: pr@ },
                ui::Event::Canceled(_, pr) => EventV::Canceled { pr: pr@ },
            },
            Event::VcsEvent(e) => match e {
                vcs::Event::MergedToStaging(_, pull, merge) => EventV::MergedToStaging {
                    pull: pull@,
                    merge: merge@,
                },
                vcs::Event::FailedMergeToStaging(_, pull) => EventV::FailedMergeToStaging {
                    pull: pull@,
                },
                vcs::Event::MovedToMaster(_, merge) => EventV::MovedToMaster { merge: merge@ },
                vcs::Event::FailedMoveToMaster(_, merge) => EventV::FailedMoveToMaster {
                    merge: merge@,
                },
            },
            Event::CiEvent(e) => match e {
                ci::Event::BuildStarted(_, commit, url) => EventV::BuildStarted {
                    commit: commit@,
                    url: url_opt_view(*url),
                },
                ci::Event::BuildFailed(_, commit, url) => EventV::BuildFailed {
                    commit: commit@,
                    url: url_opt_view(*url),
                },
                ci::Event::BuildSucceeded(_, commit, url) => EventV::BuildSucceeded {
                    commit: commit@,
                    url: url_opt_view(*url),
                },
            },
        }
    }
}

impl GetPipelineId for Event {
    open spec fn spec_pipeline_id(&self) -> int {
        match self {
            Event::UiEvent(e) => e.spec_pipeline_id(),
            Event::VcsEvent(e) => e.spec_pipeline_id(),
            Event::CiEvent(e) => e.spec_pipeline_id(),
        }
    }

    fn pipeline_id(&self) -> (r: PipelineId) {
        match self {
            Event::UiEvent(e) => e.pipeline_id(),
            Event::VcsEvent(e) => e.pipeline_id(),
            Event::CiEvent(e) => e.pipeline_id(),
        }
    }
}

/// An outbound command for one of the three collaborator workers, in the
/// order the engine issued it.  The pipeline id is the engine's own.
#[derive(Debug)]
pub enum Command {
    /// Tell the CI worker to test the commit.
    StartBuild(Commit),
    /// Tell the review-platform worker to report the status for the pull
    /// request.
    SendResult(Pr, Status),
    /// Tell the version-control worker to merge the commit into staging,
    /// with the merge-commit text and the remote to read from.
    MergeToStaging(Commit, String, String),
    /// Tell the version-control worker to fast-forward the mainline to the
    /// merge commit.
    MoveStagingToMaster(Commit),
}

/// Mathematical view of an outbound command.
pub ghost enum CommandV {
    StartBuild(Seq<char>),
    SendResult(Seq<char>, StatusV),
    MergeToStaging { commit: Seq<char>, message: Seq<char>, remote: Seq<char> },
    MoveStagingToMaster(Seq<char>),
}

impl View for Command {
    type V = CommandV;

    open spec fn view(&self) -> CommandV {
        match self {
            Command::StartBuild(c) => CommandV::StartBuild(c@),
            Command::SendResult(pr, status) => CommandV::SendResult(pr@, status@),
            Command::MergeToStaging(c, m, r) => CommandV::MergeToStaging {
                commit: c@,
                message: m@,
                remote: r@,
            },
            Command::MoveStagingToMaster(c) => CommandV::MoveStagingToMaster(c@),
        }
    }
}

/// The views of a command list, in order.
pub open spec fn cmds_view(s: Seq<Command>) -> Seq<CommandV> {
    s.map_values(|c: Command| c@)
}

/// The store contents of one pipeline, as one value.
pub ghost struct StoreV {
    pub queue: Seq<QueueEntryV>,
    pub running: Option<RunningEntryV>,
    pub pending: Map<Seq<char>, Seq<char>>,
}

/// The store contents of one pipeline, read from a store.
pub open spec fn store_view<D: Db>(db: &D, pipeline: int) -> StoreV {
    StoreV { queue: db.queue(pipeline), running: db.running(pipeline), pending: db.pending(pipeline) }
}

/// One transition: the store afterwards and the commands issued.
pub ghost struct StepV {
    pub store: StoreV,
    pub cmds: Seq<CommandV>,
}

/// A transition that leaves the store alone and issues nothing; stale and
/// unattributable events take it.
pub open spec fn step_ignore(s: StoreV) -> StepV {
    StepV { store: s, cmds: Seq::empty() }
}

/// A transition that only clears the running slot and issues nothing;
/// events that reach a canceled running entry take it.
pub open spec fn step_clear_silent(s: StoreV) -> StepV {
    StepV {
        store: StoreV { queue: s.queue, running: None, pending: s.pending },
        cmds: Seq::empty(),
    }
}

/// An approval.  The effective commit is the reviewed one, the pending head,
/// or both when they agree; with one chosen, every earlier attempt of the
/// pull request is canceled and a fresh entry joins the queue tail.  A
/// disagreement is answered with `Invalidated`, a missing commit with
/// `NoCommit`, and the store is left alone.
pub open spec fn step_approved(
    s: StoreV,
    pr: Seq<char>,
    commit: Option<Seq<char>>,
    message: Seq<char>,
) -> StepV {
    let current: Option<Seq<char>> = if s.pending.dom().contains(pr) {
        Some(s.pending[pr])
    } else {
        None
    };
    match (commit, current) {
        (Some(reviewed), Some(cur)) => if reviewed != cur {
            StepV { store: s, cmds: seq![CommandV::SendResult(pr, StatusV::Invalidated)] }
        } else {
            step_enqueue(s, pr, reviewed, message)
        },
        (Some(reviewed), None) => step_enqueue(s, pr, reviewed, message),
        (None, Some(cur)) => step_enqueue(s, pr, cur, message),
        (None, None) => StepV {
            store: s,
            cmds: seq![CommandV::SendResult(pr, StatusV::NoCommit)],
        },
    }
}

/// Cancel every earlier attempt of the pull request and append the chosen
/// commit to the queue tail.
pub open spec fn step_enqueue(
    s: StoreV,
    pr: Seq<char>,
    commit: Seq<char>,
    message: Seq<char>,
) -> StepV {
    StepV {
        store: StoreV {
            queue: queue_without(s.queue, pr).push(QueueEntryV { pr, commit, message }),
            running: running_canceled(s.running, pr),
            pending: s.pending,
        },
        cmds: Seq::empty(),
    }
}

/// A pull request was opened: its head is recorded in the pending set.
pub open spec fn step_opened(s: StoreV, pr: Seq<char>, commit: Seq<char>) -> StepV {
    StepV {
        store: StoreV {
            queue: s.queue,
            running: s.running,
            pending: s.pending.insert(pr, commit),
        },
        cmds: Seq::empty(),
    }
}

/// A pull request's head moved: attempts at any other commit are canceled
/// (answered with `Invalidated` when something was canceled), and the
/// pending head is upserted.
pub open spec fn step_changed(s: StoreV, pr: Seq<char>, commit: Seq<char>) -> StepV {
    let affected = stale_cancel_affects(s.queue, s.running, pr, commit);
    StepV {
        store: StoreV {
            queue: queue_without_stale(s.queue, pr, commit),
            running: running_canceled_stale(s.running, pr, commit),
            pending: s.pending.insert(pr, commit),
        },
        cmds: if affected {
            seq![CommandV::SendResult(pr, StatusV::Invalidated)]
        } else {
            Seq::empty()
        },
    }
}

/// A pull request was closed: it leaves the pending set and every attempt
/// of it is canceled.
pub open spec fn step_closed(s: StoreV, pr: Seq<char>) -> StepV {
    StepV {
        store: StoreV {
            queue: queue_without(s.queue, pr),
            running: running_canceled(s.running, pr),
            pending: s.pending.remove(pr),
        },
        cmds: Seq::empty(),
    }
}

/// A user canceled a pull request: every attempt of it is canceled.
pub open spec fn step_canceled(s: StoreV, pr: Seq<char>) -> StepV {
    StepV {
        store: StoreV {
            queue: queue_without(s.queue, pr),
            running: running_canceled(s.running, pr),
            pending: s.pending,
        },
        cmds: Seq::empty(),
    }
}

/// The staging merge of the running entry succeeded: its merge commit is
/// recorded, a build is started and `StartingBuild` reported.  A stale or
/// misattributed report is ignored; on a canceled entry the slot is cleared
/// silently.
pub open spec fn step_merged_to_staging(s: StoreV, pull: Seq<char>, merge: Seq<char>) -> StepV {
    match s.running {
        Some(r) => if r.pull_commit != pull {
            step_ignore(s)
        } else if r.merge_commit is Some {
            step_ignore(s)
        } else if r.canceled {
            step_clear_silent(s)
        } else if r.built {
            step_ignore(s)
        } else {
            StepV {
                store: StoreV {
                    queue: s.queue,
                    running: Some(RunningEntryV { merge_commit: Some(merge), ..r }),
                    pending: s.pending,
                },
                cmds: seq![
                    CommandV::StartBuild(merge),
                    CommandV::SendResult(r.pr, StatusV::StartingBuild(pull, merge)),
                ],
            }
        },
        None => step_ignore(s),
    }
}

/// The staging merge of the running entry failed: the entry is dropped and
/// `Unmergeable` reported.  A stale report is ignored; a canceled entry is
/// cleared silently.
pub open spec fn step_failed_merge_to_staging(s: StoreV, pull: Seq<char>) -> StepV {
    match s.running {
        Some(r) => if r.pull_commit != pull {
            step_ignore(s)
        } else if r.merge_commit is Some {
            step_ignore(s)
        } else if r.built {
            step_ignore(s)
        } else if r.canceled {
            step_clear_silent(s)
        } else {
            StepV {
                store: StoreV { queue: s.queue, running: None, pending: s.pending },
                cmds: seq![CommandV::SendResult(r.pr, StatusV::Unmergeable(pull))],
            }
        },
        None => step_ignore(s),
    }
}

/// CI began testing the merge commit: `Testing` is reported.  The store is
/// never moved.
pub open spec fn step_build_started(s: StoreV, commit: Seq<char>, url: Option<Seq<char>>) -> StepV {
    match s.running {
        Some(r) => match r.merge_commit {
            Some(m) => if m != commit {
                step_ignore(s)
            } else if r.canceled {
                step_ignore(s)
            } else if r.built {
                step_ignore(s)
            } else {
                StepV {
                    store: s,
                    cmds: seq![
                        CommandV::SendResult(r.pr, StatusV::Testing(r.pull_commit, commit, url)),
                    ],
                }
            },
            None => step_ignore(s),
        },
        None => step_ignore(s),
    }
}

/// CI rejected the merge commit: the entry is dropped and `Failure`
/// reported.  A stale or duplicate report is ignored; a canceled entry is
/// cleared silently.
pub open spec fn step_build_failed(s: StoreV, commit: Seq<char>, url: Option<Seq<char>>) -> StepV {
    match s.running {
        Some(r) => match r.merge_commit {
            Some(m) => if m != commit {
                step_ignore(s)
            } else if r.canceled {
                step_clear_silent(s)
            } else if r.built {
                step_ignore(s)
            } else {
                StepV {
                    store: StoreV { queue: s.queue, running: None, pending: s.pending },
                    cmds: seq![
                        CommandV::SendResult(r.pr, StatusV::Failure(r.pull_commit, m, url)),
                    ],
                }
            },
            None => step_ignore(s),
        },
        None => step_ignore(s),
    }
}

/// CI accepted the merge commit: the mainline move is commanded, `Success`
/// reported, and the entry kept with the `built` tag.  A stale or duplicate
/// report is ignored; a canceled entry is cleared silently.
pub open spec fn step_build_succeeded(
    s: StoreV,
    commit: Seq<char>,
    url: Option<Seq<char>>,
) -> StepV {
    match s.running {
        Some(r) => match r.merge_commit {
            Some(m) => if m != commit {
                step_ignore(s)
            } else if r.canceled {
                step_clear_silent(s)
            } else if r.built {
                step_ignore(s)
            } else {
                StepV {
                    store: StoreV {
                        queue: s.queue,
                        running: Some(RunningEntryV { built: true, ..r }),
                        pending: s.pending,
                    },
                    cmds: seq![
                        CommandV::MoveStagingToMaster(m),
                        CommandV::SendResult(r.pr, StatusV::Success(r.pull_commit, m, url)),
                    ],
                }
            },
            None => step_ignore(s),
        },
        None => step_ignore(s),
    }
}

/// The mainline move failed: the entry is dropped and `Unmoveable`
/// reported.  A stale or premature report is ignored; a canceled entry is
/// cleared silently.
pub open spec fn step_failed_move_to_master(s: StoreV, merge: Seq<char>) -> StepV {
    match s.running {
        Some(r) => match r.merge_commit {
            Some(m) => if m != merge {
                step_ignore(s)
            } else if r.canceled {
                step_clear_silent(s)
            } else if !r.built {
                step_ignore(s)
            } else {
                StepV {
                    store: StoreV { queue: s.queue, running: None, pending: s.pending },
                    cmds: seq![
                        CommandV::SendResult(r.pr, StatusV::Unmoveable(r.pull_commit, m)),
                    ],
                }
            },
            None => step_ignore(s),
        },
        None => step_ignore(s),
    }
}

/// The mainline was fast-forwarded: the entry is dropped and `Completed`
/// reported.  A stale or premature report is ignored; a canceled entry is
/// cleared silently.
pub open spec fn step_moved_to_master(s: StoreV, merge: Seq<char>) -> StepV {
    match s.running {
        Some(r) => match r.merge_commit {
            Some(m) => if m != merge {
                step_ignore(s)
            } else if r.canceled {
                step_clear_silent(s)
            } else if !r.built {
                step_ignore(s)
            } else {
                StepV {
                    store: StoreV { queue: s.queue, running: None, pending: s.pending },
                    cmds: seq![
                        CommandV::SendResult(r.pr, StatusV::Completed(r.pull_commit, m)),
                    ],
                }
            },
            None => step_ignore(s),
        },
        None => step_ignore(s),
    }
}

/// The transition of one event, before promotion.
pub open spec fn step_event(s: StoreV, e: EventV) -> StepV {
    match e {
        EventV::Approved { pr, reviewed, message } => step_approved(s, pr, reviewed, message),
        EventV::Opened { pr, commit } => step_opened(s, pr, commit),
        EventV::Changed { pr, commit } => step_changed(s, pr, commit),
        EventV::Closed { pr } => step_closed(s, pr),
        EventV::Canceled { pr } => step_canceled(s, pr),
        EventV::MergedToStaging { pull, merge } => step_merged_to_staging(s, pull, merge),
        EventV::FailedMergeToStaging { pull } => step_failed_merge_to_staging(s, pull),
        EventV::MovedToMaster { merge } => step_moved_to_master(s, merge),
        EventV::FailedMoveToMaster { merge } => step_failed_move_to_master(s, merge),
        EventV::BuildStarted { commit, url } => step_build_started(s, commit, url),
        EventV::BuildFailed { commit, url } => step_build_failed(s, commit, url),
        EventV::BuildSucceeded { commit, url } => step_build_succeeded(s, commit, url),
    }
}

/// The promotion rule: with nothing running and a non-empty queue, the head
/// becomes the running entry and its staging merge is commanded, reading
/// from the remote of its pull request.
pub open spec fn step_promote(s: StoreV) -> StepV {
    if s.running is None && s.queue.len() > 0 {
        let next = s.queue.first();
        StepV {
            store: StoreV {
                queue: s.queue.drop_first(),
                running: Some(
                    RunningEntryV {
                        pr: next.pr,
                        pull_commit: next.commit,
                        merge_commit: None,
                        message: next.message,
                        canceled: false,
                        built: false,
                    },
                ),
                pending: s.pending,
            },
            cmds: seq![
                CommandV::MergeToStaging {
                    commit: next.commit,
                    message: next.message,
                    remote: next.pr,
                },
            ],
        }
    } else {
        StepV { store: s, cmds: Seq::empty() }
    }
}

/// The whole transition of one event: the event's own effect, then
/// promotion; the commands of both, in that order.
pub open spec fn step(s: StoreV, e: EventV) -> StepV {
    let first = step_event(s, e);
    let promo = step_promote(first.store);
    StepV { store: promo.store, cmds: first.cmds + promo.cmds }
}

fn handle_opened<D: Db>(db: &mut D, pipeline_id: PipelineId, pr: Pr, commit: Commit) -> (cmds: Vec<
    Command,
>)
    ensures
        ({
            let r = step_opened(store_view(old(db), pipeline_id@), pr@, commit@);
            &&& store_view(final(db), pipeline_id@) == r.store
            &&& cmds_view(cmds@) == r.cmds
        }),
{
    db.add_pending(pipeline_id, PendingEntry { pr, commit });
    let cmds: Vec<Command> = Vec::new();
    proof {
        assert(cmds_view(cmds@) =~= Seq::<CommandV>::empty());
    }
    cmds
}

fn handle_approved<D: Db>(
    db: &mut D,
    pipeline_id: PipelineId,
    pr: Pr,
    commit: Option<Commit>,
    message: String,
) -> (cmds: Vec<Command>)
    ensures
        ({
            let r = step_approved(
                store_view(old(db), pipeline_id@),
                pr@,
                commit_opt_view(commit),
                message@,
            );
            &&& store_view(final(db), pipeline_id@) == r.store
            &&& cmds_view(cmds@) == r.cmds
        }),
{
    let mut cmds: Vec<Command> = Vec::new();
    let current = db.peek_pending_by_pr(pipeline_id, &pr);
    let chosen: Option<Commit> = match (commit, current) {
        (Some(reviewed), Some(cur)) => {
            if !(reviewed == cur.commit) {
                cmds.push(Command::SendResult(pr.clone(), Status::Invalidated));
                None
            } else {
                Some(reviewed)
            }
        },
        (Some(reviewed), None) => Some(reviewed),
        (None, Some(cur)) => Some(cur.commit),
        (None, None) => {
            cmds.push(Command::SendResult(pr.clone(), Status::NoCommit));
            None
        },
    };
    match chosen {
        Some(c) => {
            db.cancel_by_pr(pipeline_id, &pr);
            db.push_queue(pipeline_id, QueueEntry { pr, commit: c, message });
            proof {
                assert(cmds_view(cmds@) =~= Seq::<CommandV>::empty());
            }
        },
        None => {
            proof {
                assert(cmds_view(cmds@) =~= seq![cmds@[0]@]);
            }
        },
    }
    cmds
}

fn handle_changed<D: Db>(db: &mut D, pipeline_id: PipelineId, pr: Pr, commit: Commit) -> (cmds:
    Vec<Command>)
    ensures
        ({
            let r = step_changed(store_view(old(db), pipeline_id@), pr@, commit@);
            &&& store_view(final(db), pipeline_id@) == r.store
            &&& cmds_view(cmds@) == r.cmds
        }),
{
    let mut cmds: Vec<Command> = Vec::new();
    if db.cancel_by_pr_different_commit(pipeline_id, &pr, &commit) {
        cmds.push(Command::SendResult(pr.clone(), Status::Invalidated));
        proof {
            assert(cmds_view(cmds@) =~= seq![cmds@[0]@]);
        }
    } else {
        proof {
            assert(cmds_view(cmds@) =~= Seq::<CommandV>::empty());
        }
    }
    db.add_pending(pipeline_id, PendingEntry { pr, commit });
    cmds
}

fn handle_closed<D: Db>(db: &mut D, pipeline_id: PipelineId, pr: Pr) -> (cmds: Vec<Command>)
    ensures
        ({
            let r = step_closed(store_view(old(db), pipeline_id@), pr@);
            &&& store_view(final(db), pipeline_id@) == r.store
            &&& cmds_view(cmds@) == r.cmds
        }),
{
    db.take_pending_by_pr(pipeline_id, &pr);
    db.cancel_by_pr(pipeline_id, &pr);
    let cmds: Vec<Command> = Vec::new();
    proof {
        assert(cmds_view(cmds@) =~= Seq::<CommandV>::empty());
    }
    cmds
}

fn handle_canceled<D: Db>(db: &mut D, pipeline_id: PipelineId, pr: Pr) -> (cmds: Vec<Command>)
    ensures
        ({
            let r = step_canceled(store_view(old(db), pipeline_id@), pr@);
            &&& store_view(final(db), pipeline_id@) == r.store
            &&& cmds_view(cmds@) == r.cmds
        }),
{
    db.cancel_by_pr(pipeline_id, &pr);
    let cmds: Vec<Command> = Vec::new();
    proof {
        assert(cmds_view(cmds@) =~= Seq::<CommandV>::empty());
    }
    cmds
}

fn handle_merged_to_staging<D: Db>(
    db: &mut D,
    pipeline_id: PipelineId,
    pull: Commit,
    merge: Commit,
) -> (cmds: Vec<Command>)
    ensures
        ({
            let r = step_merged_to_staging(store_view(old(db), pipeline_id@), pull@, merge@);
            &&& store_view(final(db), pipeline_id@) == r.store
            &&& cmds_view(cmds@) == r.cmds
        }),
{
    let mut cmds: Vec<Command> = Vec::new();
    match db.take_running(pipeline_id) {
        Some(running) => {
            if !(running.pull_commit == pull) {
                db.put_running(pipeline_id, running);
            } else if running.merge_commit.is_some() {
                db.put_running(pipeline_id, running);
            } else if running.canceled {
                // The entry is canceled: the slot stays clear, nothing is
                // reported.
            } else if running.built {
                db.put_running(pipeline_id, running);
            } else {
                let mut running = running;
                running.merge_commit = Some(merge.clone());
                cmds.push(Command::StartBuild(merge.clone()));
                cmds.push(
                    Command::SendResult(running.pr.clone(), Status::StartingBuild(pull, merge)),
                );
                db.put_running(pipeline_id, running);
                proof {
                    assert(cmds_view(cmds@) =~= seq![cmds@[0]@, cmds@[1]@]);
                }
            }
        },
        None => {},
    }
    proof {
        if cmds@.len() == 0 {
            assert(cmds_view(cmds@) =~= Seq::<CommandV>::empty());
        }
    }
    cmds
}

fn handle_failed_merge_to_staging<D: Db>(db: &mut D, pipeline_id: PipelineId, pull: Commit) -> (
    cmds: Vec<Command>)
    ensures
        ({
            let r = step_failed_merge_to_staging(store_view(old(db), pipeline_id@), pull@);
            &&& store_view(final(db), pipeline_id@) == r.store
            &&& cmds_view(cmds@) == r.cmds
        }),
{
    let mut cmds: Vec<Command> = Vec::new();
    match db.take_running(pipeline_id) {
        Some(running) => {
            if !(running.pull_commit == pull) {
                db.put_running(pipeline_id, running);
            } else if running.merge_commit.is_some() {
                db.put_running(pipeline_id, running);
            } else if running.built {
                db.put_running(pipeline_id, running);
            } else if running.canceled {
                // Canceled: cleared silently.
            } else {
                cmds.push(Command::SendResult(running.pr, Status::Unmergeable(pull)));
                proof {
                    assert(cmds_view(cmds@) =~= seq![cmds@[0]@]);
                }
            }
        },
        None => {},
    }
    proof {
        if cmds@.len() == 0 {
            assert(cmds_view(cmds@) =~= Seq::<CommandV>::empty());
        }
    }
    cmds
}

fn handle_build_started<D: Db>(
    db: &mut D,
    pipeline_id: PipelineId,
    commit: Commit,
    url: Option<String>,
) -> (cmds: Vec<Command>)
    ensures
        ({
            let r = step_build_started(
                store_view(old(db), pipeline_id@),
                commit@,
                url_opt_view(url),
            );
            &&& store_view(final(db), pipeline_id@) == r.store
            &&& cmds_view(cmds@) == r.cmds
        }),
{
    let mut cmds: Vec<Command> = Vec::new();
    match db.peek_running(pipeline_id) {
        Some(running) => {
            match running.merge_commit {
                Some(merged) => {
                    if !(merged == commit) {
                    } else if running.canceled {
                    } else if running.built {
                    } else {
                        cmds.push(
                            Command::SendResult(
                                running.pr,
                                Status::Testing(running.pull_commit, commit, url),
                            ),
                        );
                        proof {
                            assert(cmds_view(cmds@) =~= seq![cmds@[0]@]);
                        }
                    }
                },
                None => {},
            }
        },
        None => {},
    }
    proof {
        if cmds@.len() == 0 {
            assert(cmds_view(cmds@) =~= Seq::<CommandV>::empty());
        }
    }
    cmds
}

fn handle_build_failed<D: Db>(
    db: &mut D,
    pipeline_id: PipelineId,
    commit: Commit,
    url: Option<String>,
) -> (cmds: Vec<Command>)
    ensures
        ({
            let r = step_build_failed(store_view(old(db), pipeline_id@), commit@, url_opt_view(url));
            &&& store_view(final(db), pipeline_id@) == r.store
            &&& cmds_view(cmds@) == r.cmds
        }),
{
    let mut cmds: Vec<Command> = Vec::new();
    match db.take_running(pipeline_id) {
        Some(running) => {
            let has_merge = running.merge_commit.is_some();
            let matches_merge = match &running.merge_commit {
                Some(m) => *m == commit,
                None => false,
            };
            if !has_merge {
                db.put_running(pipeline_id, running);
            } else if !matches_merge {
                db.put_running(pipeline_id, running);
            } else if running.canceled {
                // Canceled: cleared silently.
            } else if running.built {
                db.put_running(pipeline_id, running);
            } else {
                match running.merge_commit {
                    Some(merged) => {
                        cmds.push(
                            Command::SendResult(
                                running.pr,
                                Status::Failure(running.pull_commit, merged, url),
                            ),
                        );
                        proof {
                            assert(cmds_view(cmds@) =~= seq![cmds@[0]@]);
                        }
                    },
                    None => {},
                }
            }
        },
        None => {},
    }
    proof {
        if cmds@.len() == 0 {
            assert(cmds_view(cmds@) =~= Seq::<CommandV>::empty());
        }
    }
    cmds
}

fn handle_build_succeeded<D: Db>(
    db: &mut D,
    pipeline_id: PipelineId,
    commit: Commit,
    url: Option<String>,
) -> (cmds: Vec<Command>)
    ensures
        ({
            let r = step_build_succeeded(
                store_view(old(db), pipeline_id@),
                commit@,
                url_opt_view(url),
            );
            &&& store_view(final(db), pipeline_id@) == r.store
            &&& cmds_view(cmds@) == r.cmds
        }),
{
    let mut cmds: Vec<Command> = Vec::new();
    match db.take_running(pipeline_id) {
        Some(running) => {
            let matches_merge = match &running.merge_commit {
                Some(m) => *m == commit,
                None => false,
            };
            if running.merge_commit.is_none() {
                db.put_running(pipeline_id, running);
            } else if !matches_merge {
                db.put_running(pipeline_id, running);
            } else if running.canceled {
                // Canceled: cleared silently.
            } else if running.built {
                db.put_running(pipeline_id, running);
            } else {
                let mut running = running;
                running.built = true;
                match &running.merge_commit {
                    Some(merged) => {
                        cmds.push(Command::MoveStagingToMaster(merged.clone()));
                        cmds.push(
                            Command::SendResult(
                                running.pr.clone(),
                                Status::Success(running.pull_commit.clone(), merged.clone(), url),
                            ),
                        );
                    },
                    None => {},
                }
                db.put_running(pipeline_id, running);
                proof {
                    assert(cmds_view(cmds@) =~= seq![cmds@[0]@, cmds@[1]@]);
                }
            }
        },
        None => {},
    }
    proof {
        if cmds@.len() == 0 {
            assert(cmds_view(cmds@) =~= Seq::<CommandV>::empty());
        }
    }
    cmds
}

fn handle_failed_move_to_master<D: Db>(db: &mut D, pipeline_id: PipelineId, merge: Commit) -> (
    cmds: Vec<Command>)
    ensures
        ({
            let r = step_failed_move_to_master(store_view(old(db), pipeline_id@), merge@);
            &&& store_view(final(db), pipeline_id@) == r.store
            &&& cmds_view(cmds@) == r.cmds
        }),
{
    let mut cmds: Vec<Command> = Vec::new();
    match db.take_running(pipeline_id) {
        Some(running) => {
            let matches_merge = match &running.merge_commit {
                Some(m) => *m == merge,
                None => false,
            };
            if running.merge_commit.is_none() {
                db.put_running(pipeline_id, running);
            } else if !matches_merge {
                db.put_running(pipeline_id, running);
            } else if running.canceled {
                // Canceled: cleared silently.
            } else if !running.built {
                db.put_running(pipeline_id, running);
            } else {
                match running.merge_commit {
                    Some(merged) => {
                        cmds.push(
                            Command::SendResult(
                                running.pr,
                                Status::Unmoveable(running.pull_commit, merged),
                            ),
                        );
                        proof {
                            assert(cmds_view(cmds@) =~= seq![cmds@[0]@]);
                        }
                    },
                    None => {},
                }
            }
        },
        None => {},
    }
    proof {
        if cmds@.len() == 0 {
            assert(cmds_view(cmds@) =~= Seq::<CommandV>::empty());
        }
    }
    cmds
}

fn handle_moved_to_master<D: Db>(db: &mut D, pipeline_id: PipelineId, merge: Commit) -> (cmds: Vec<
    Command,
>)
    ensures
        ({
            let r = step_moved_to_master(store_view(old(db), pipeline_id@), merge@);
            &&& store_view(final(db), pipeline_id@) == r.store
            &&& cmds_view(cmds@) == r.cmds
        }),
{
    let mut cmds: Vec<Command> = Vec::new();
    match db.take_running(pipeline_id) {
        Some(running) => {
            let matches_merge = match &running.merge_commit {
                Some(m) => *m == merge,
                None => false,
            };
            if running.merge_commit.is_none() {
                db.put_running(pipeline_id, running);
            } else if !matches_merge {
                db.put_running(pipeline_id, running);
            } else if running.canceled {
                // Canceled: cleared silently.
            } else if !running.built {
                db.put_running(pipeline_id, running);
            } else {
                match running.merge_commit {
                    Some(merged) => {
                        cmds.push(
                            Command::SendResult(
                                running.pr,
                                Status::Completed(running.pull_commit, merged),
                            ),
                        );
                        proof {
                            assert(cmds_view(cmds@) =~= seq![cmds@[0]@]);
                        }
                    },
                    None => {},
                }
            }
        },
        None => {},
    }
    proof {
        if cmds@.len() == 0 {
            assert(cmds_view(cmds@) =~= Seq::<CommandV>::empty());
        }
    }
    cmds
}

fn promote<D: Db>(db: &mut D, pipeline_id: PipelineId) -> (cmds: Vec<Command>)
    ensures
        ({
            let r = step_promote(store_view(old(db), pipeline_id@));
            &&& store_view(final(db), pipeline_id@) == r.store
            &&& cmds_view(cmds@) == r.cmds
        }),
{
    let mut cmds: Vec<Command> = Vec::new();
    if db.peek_running(pipeline_id).is_none() {
        match db.pop_queue(pipeline_id) {
            Some(next) => {
                cmds.push(
                    Command::MergeToStaging(
                        next.commit.clone(),
                        next.message.clone(),
                        next.pr.remote(),
                    ),
                );
                db.put_running(
                    pipeline_id,
                    RunningEntry {
                        pr: next.pr,
                        pull_commit: next.commit,
                        merge_commit: None,
                        message: next.message,
                        canceled: false,
                        built: false,
                    },
                );
                proof {
                    assert(cmds_view(cmds@) =~= seq![cmds@[0]@]);
                }
            },
            None => {},
        }
    }
    proof {
        if cmds@.len() == 0 {
            assert(cmds_view(cmds@) =~= Seq::<CommandV>::empty());
        }
    }
    cmds
}

/// Interpret one inbound event against the store: the event's own effect,
/// then the promotion rule.  Returns the outbound commands for the
/// collaborator workers, in the order they are to be issued.
///
/// The event must belong to this pipeline; the caller checks.
pub fn handle<D: Db>(db: &mut D, pipeline_id: PipelineId, event: Event) -> (cmds: Vec<Command>)
    requires
        event.spec_pipeline_id() == pipeline_id@,
    ensures
        ({
            let r = step(store_view(old(db), pipeline_id@), event@);
            &&& store_view(final(db), pipeline_id@) == r.store
            &&& cmds_view(cmds@) == r.cmds
        }),
{
    let mut cmds: Vec<Command> = match event {
        Event::UiEvent(ui::Event::Approved(_, pr, commit, message)) => handle_approved(
            db,
            pipeline_id,
            pr,
            commit,
            message,
        ),
        Event::UiEvent(ui::Event::Opened(_, pr, commit)) => handle_opened(
            db,
            pipeline_id,
            pr,
            commit,
        ),
        Event::UiEvent(ui::Event::Changed(_, pr, commit)) => handle_changed(
            db,
            pipeline_id,
            pr,
            commit,
        ),
        Event::UiEvent(ui::Event::Closed(_, pr)) => handle_closed(db, pipeline_id, pr),
        Event::UiEvent(ui::Event::Canceled(_, pr)) => handle_canceled(db, pipeline_id, pr),
        Event::VcsEvent(vcs::Event::MergedToStaging(_, pull, merge)) => handle_merged_to_staging(
            db,
            pipeline_id,
            pull,
            merge,
        ),
        Event::VcsEvent(vcs::Event::FailedMergeToStaging(_, pull)) => handle_failed_merge_to_staging(
            db,
            pipeline_id,
            pull,
        ),
        Event::VcsEvent(vcs::Event::MovedToMaster(_, merge)) => handle_moved_to_master(
            db,
            pipeline_id,
            merge,
        ),
        Event::VcsEvent(vcs::Event::FailedMoveToMaster(_, merge)) => handle_failed_move_to_master(
            db,
            pipeline_id,
            merge,
        ),
        Event::CiEvent(ci::Event::BuildStarted(_, commit, url)) => handle_build_started(
            db,
            pipeline_id,
            commit,
            url,
        ),
        Event::CiEvent(ci::Event::BuildFailed(_, commit, url)) => handle_build_failed(
            db,
            pipeline_id,
            commit,
            url,
        ),
        Event::CiEvent(ci::Event::BuildSucceeded(_, commit, url)) => handle_build_succeeded(
            db,
            pipeline_id,
            commit,
            url,
        ),
    };
    let ghost first = cmds_view(cmds@);
    let mut promo = promote(db, pipeline_id);
    let ghost second = cmds_view(promo@);
    cmds.append(&mut promo);
    proof {
        assert(cmds_view(cmds@) =~= first + second);
    }
    cmds
}

/// One pipeline bound to its three collaborator capabilities.
pub struct Pipeline<B: Ci, U: Ui, V: Vcs> {
    pub id: PipelineId,
    pub ci: B,
    pub ui: U,
    pub vcs: V,
}

impl<B: Ci, U: Ui, V: Vcs> Pipeline<B, U, V> {
    pub fn new(id: PipelineId, ci: B, ui: U, vcs: V) -> (r: Self)
        ensures
            r.id == id,
    {
        Pipeline { id, ci, ui, vcs }
    }

    /// Interpret one inbound event against the store and issue the
    /// resulting commands through the capabilities, in order.
    ///
    /// The event must belong to this pipeline; the caller checks.
    pub fn handle_event<D: Db>(&mut self, db: &mut D, event: Event)
        requires
            event.spec_pipeline_id() == old(self).id@,
        ensures
            *final(self) == *old(self),
            store_view(final(db), old(self).id@) == step(
                store_view(old(db), old(self).id@),
                event@,
            ).store,
    {
        let id = self.id;
        let mut cmds = handle(db, id, event);
        while cmds.len() > 0
            decreases cmds@.len(),
        {
            let c = cmds.remove(0);
            match c {
                Command::StartBuild(commit) => self.ci.start_build(id, commit),
                Command::SendResult(pr, status) => self.ui.send_result(id, pr, status),
                Command::MergeToStaging(commit, message, remote) => self.vcs.merge_to_staging(
                    id,
                    commit,
                    message,
                    remote,
                ),
                Command::MoveStagingToMaster(commit) => self.vcs.move_staging_to_master(id, commit),
            }
        }
    }
}

} // verus!
