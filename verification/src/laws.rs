//! Laws of the engine, each proved once over the transition [`step`].
//!
//! They state what holds of every pipeline after every event: the
//! promotion-readiness and merge-monotonicity invariants, the silence of
//! canceled entries, and the idempotence and no-op guarantees for repeated
//! or stale events.

use vstd::prelude::*;

use crate::db::{
    queue_without, queue_without_stale, running_canceled, stale_cancel_affects, QueueEntryV,
    RunningEntryV,
};
use crate::pipeline::{step, step_ignore, CommandV, EventV, StoreV};
use crate::ui::StatusV;

verus! {

/// Promotion readiness: nothing waits while nothing runs.
pub open spec fn promoted(s: StoreV) -> bool {
    s.running is None ==> s.queue.len() == 0
}

/// Merge monotonicity: a built running entry has its merge commit.
pub open spec fn built_has_merge(s: StoreV) -> bool {
    match s.running {
        Some(r) => r.built ==> r.merge_commit is Some,
        None => true,
    }
}

/// Whether a command list reports any status to the user.
pub open spec fn sends_status(cmds: Seq<CommandV>) -> bool {
    exists|i: int| 0 <= i < cmds.len() && #[trigger] cmds[i] is SendResult
}

/// Whether an event comes from the version-control or CI worker; those are
/// the events addressed to the running entry.
pub open spec fn is_vcs_or_ci(e: EventV) -> bool {
    match e {
        EventV::MergedToStaging { .. } => true,
        EventV::FailedMergeToStaging { .. } => true,
        EventV::MovedToMaster { .. } => true,
        EventV::FailedMoveToMaster { .. } => true,
        EventV::BuildStarted { .. } => true,
        EventV::BuildFailed { .. } => true,
        EventV::BuildSucceeded { .. } => true,
        _ => false,
    }
}

/// After any event, a pipeline with a non-empty queue has a running entry:
/// the promotion rule leaves no work waiting behind an empty slot.
pub proof fn lemma_step_promotes(s: StoreV, e: EventV)
    ensures
        promoted(step(s, e).store),
{
}

/// Every event preserves merge monotonicity: no transition sets `built`
/// without a merge commit in place.
pub proof fn lemma_step_keeps_built_has_merge(s: StoreV, e: EventV)
    requires
        built_has_merge(s),
    ensures
        built_has_merge(step(s, e).store),
{
}

/// A canceled running entry is silent: an event from the version-control
/// or CI worker reports no status while it occupies the slot, whatever the
/// event carries.
pub proof fn lemma_canceled_is_silent(s: StoreV, e: EventV, r: RunningEntryV)
    requires
        s.running == Some(r),
        r.canceled,
        is_vcs_or_ci(e),
    ensures
        !sends_status(step(s, e).cmds),
{
}

/// Recording the same pending head twice is the same as recording it once:
/// the upsert of `add_pending` replaces.
pub proof fn lemma_add_pending_idempotent(
    m: Map<Seq<char>, Seq<char>>,
    pr: Seq<char>,
    commit: Seq<char>,
)
    ensures
        m.insert(pr, commit).insert(pr, commit) == m.insert(pr, commit),
{
    assert(m.insert(pr, commit).insert(pr, commit) =~= m.insert(pr, commit));
}

/// Evicting a pull request from a queue it no longer occurs in changes
/// nothing.
proof fn lemma_queue_without_noop(q: Seq<QueueEntryV>, pr: Seq<char>)
    requires
        forall|i: int| 0 <= i < q.len() ==> #[trigger] q[i].pr != pr,
    ensures
        queue_without(q, pr) == q,
    decreases q.len(),
{
    reveal(Seq::filter);
    if q.len() > 0 {
        assert(forall|i: int|
            0 <= i < q.drop_last().len() ==> #[trigger] q.drop_last()[i].pr != pr);
        lemma_queue_without_noop(q.drop_last(), pr);
        assert(queue_without(q, pr) =~= q);
    }
}

/// A guarded eviction that touches nothing changes nothing.
proof fn lemma_queue_without_stale_noop(q: Seq<QueueEntryV>, pr: Seq<char>, commit: Seq<char>)
    requires
        forall|i: int|
            0 <= i < q.len() ==> #[trigger] q[i].pr != pr || q[i].commit == commit,
    ensures
        queue_without_stale(q, pr, commit) == q,
    decreases q.len(),
{
    reveal(Seq::filter);
    if q.len() > 0 {
        assert(forall|i: int|
            0 <= i < q.drop_last().len() ==> #[trigger] q.drop_last()[i].pr != pr
                || q.drop_last()[i].commit == commit);
        lemma_queue_without_stale_noop(q.drop_last(), pr, commit);
        assert(queue_without_stale(q, pr, commit) =~= q);
    }
}

/// Canceling a pull request twice is the same as canceling it once, on the
/// queue and on the running slot alike.
pub proof fn lemma_cancel_by_pr_idempotent(
    q: Seq<QueueEntryV>,
    r: Option<RunningEntryV>,
    pr: Seq<char>,
)
    ensures
        queue_without(queue_without(q, pr), pr) == queue_without(q, pr),
        running_canceled(running_canceled(r, pr), pr) == running_canceled(r, pr),
{
    broadcast use Seq::lemma_filter_pred;

    let once = queue_without(q, pr);
    assert forall|i: int| 0 <= i < once.len() implies #[trigger] once[i].pr != pr by {
        assert(once[i] == q.filter(|e: QueueEntryV| e.pr != pr)[i]);
    }
    lemma_queue_without_noop(once, pr);
}

/// `Success` is reported exactly once: the first `BuildSucceeded` for the
/// merge commit commands the mainline move and reports `Success`, leaving
/// the entry built; a second report of the same commit then moves nothing
/// and reports nothing.
pub proof fn lemma_build_succeeded_once(
    s: StoreV,
    r: RunningEntryV,
    commit: Seq<char>,
    url: Option<Seq<char>>,
    url2: Option<Seq<char>>,
)
    requires
        s.running == Some(r),
        r.merge_commit == Some(commit),
        !r.canceled,
        !r.built,
    ensures
        step(s, EventV::BuildSucceeded { commit, url }).cmds == seq![
            CommandV::MoveStagingToMaster(commit),
            CommandV::SendResult(r.pr, StatusV::Success(r.pull_commit, commit, url)),
        ],
        step(s, EventV::BuildSucceeded { commit, url }).store.running == (Some(
            RunningEntryV { built: true, ..r },
        )),
        step(
            step(s, EventV::BuildSucceeded { commit, url }).store,
            EventV::BuildSucceeded { commit, url: url2 },
        ) == step_ignore(step(s, EventV::BuildSucceeded { commit, url }).store),
{
    assert(step(s, EventV::BuildSucceeded { commit, url }).cmds =~= seq![
        CommandV::MoveStagingToMaster(commit),
        CommandV::SendResult(r.pr, StatusV::Success(r.pull_commit, commit, url)),
    ]);
    let s1 = step(s, EventV::BuildSucceeded { commit, url }).store;
    assert(step(s1, EventV::BuildSucceeded { commit, url: url2 }).cmds =~= Seq::<
        CommandV,
    >::empty());
}

/// A duplicate `BuildSucceeded` for a built entry is a no-op: the store is
/// left exactly as it was and nothing is issued; `Success` was reported by
/// the first report alone.
pub proof fn lemma_duplicate_build_succeeded_noop(
    s: StoreV,
    r: RunningEntryV,
    commit: Seq<char>,
    url: Option<Seq<char>>,
)
    requires
        s.running == Some(r),
        r.built,
        !r.canceled,
    ensures
        step(s, EventV::BuildSucceeded { commit, url }).store == s,
        step(s, EventV::BuildSucceeded { commit, url }).cmds == Seq::<CommandV>::empty(),
{
    assert(step(s, EventV::BuildSucceeded { commit, url }).cmds =~= Seq::<CommandV>::empty());
}

/// A `MergedToStaging` for an entry whose merge commit is already set is a
/// no-op: the store is left exactly as it was and nothing is issued.
pub proof fn lemma_duplicate_merged_to_staging_noop(
    s: StoreV,
    r: RunningEntryV,
    pull: Seq<char>,
    merge: Seq<char>,
)
    requires
        s.running == Some(r),
        r.merge_commit is Some,
    ensures
        step(s, EventV::MergedToStaging { pull, merge }).store == s,
        step(s, EventV::MergedToStaging { pull, merge }).cmds == Seq::<CommandV>::empty(),
{
    assert(step(s, EventV::MergedToStaging { pull, merge }).cmds =~= Seq::<CommandV>::empty());
}

/// An approval that names no commit, for a pull request with no pending
/// head, answers `NoCommit` and moves nothing.
pub proof fn lemma_approved_no_commit(s: StoreV, pr: Seq<char>, message: Seq<char>)
    requires
        promoted(s),
        !s.pending.dom().contains(pr),
    ensures
        step(s, EventV::Approved { pr, reviewed: None, message }).store == s,
        step(s, EventV::Approved { pr, reviewed: None, message }).cmds == seq![
            CommandV::SendResult(pr, StatusV::NoCommit),
        ],
{
    assert(step(s, EventV::Approved { pr, reviewed: None, message }).cmds =~= seq![
        CommandV::SendResult(pr, StatusV::NoCommit),
    ]);
}

/// An approval whose reviewed commit disagrees with the pending head
/// answers `Invalidated` and moves nothing.
pub proof fn lemma_approved_stale(
    s: StoreV,
    pr: Seq<char>,
    reviewed: Seq<char>,
    message: Seq<char>,
)
    requires
        promoted(s),
        s.pending.dom().contains(pr),
        s.pending[pr] != reviewed,
    ensures
        step(s, EventV::Approved { pr, reviewed: Some(reviewed), message }).store == s,
        step(s, EventV::Approved { pr, reviewed: Some(reviewed), message }).cmds == seq![
            CommandV::SendResult(pr, StatusV::Invalidated),
        ],
{
    assert(step(s, EventV::Approved { pr, reviewed: Some(reviewed), message }).cmds =~= seq![
        CommandV::SendResult(pr, StatusV::Invalidated),
    ]);
}

/// A head change that merely confirms the running pull commit invalidates
/// nothing: beside the pending upsert the store is untouched and nothing is
/// reported.
pub proof fn lemma_changed_same_commit(s: StoreV, r: RunningEntryV, pr: Seq<char>, commit: Seq<
    char,
>)
    requires
        s.running == Some(r),
        r.pr == pr,
        r.pull_commit == commit,
        forall|i: int|
            0 <= i < s.queue.len() ==> #[trigger] s.queue[i].pr != pr || s.queue[i].commit
                == commit,
    ensures
        step(s, EventV::Changed { pr, commit }).store == (StoreV {
            queue: s.queue,
            running: s.running,
            pending: s.pending.insert(pr, commit),
        }),
        step(s, EventV::Changed { pr, commit }).cmds == Seq::<CommandV>::empty(),
{
    lemma_queue_without_stale_noop(s.queue, pr, commit);
    assert(!stale_cancel_affects(s.queue, s.running, pr, commit));
    assert(step(s, EventV::Changed { pr, commit }).cmds =~= Seq::<CommandV>::empty());
}

/// Closing a running pull request cancels its entry in place, reports
/// nothing, and from then on the canceled entry is silent
/// (`lemma_canceled_is_silent`).
pub proof fn lemma_closed_cancels_running(s: StoreV, r: RunningEntryV, pr: Seq<char>)
    requires
        s.running == Some(r),
        r.pr == pr,
    ensures
        step(s, EventV::Closed { pr }).store.running == (Some(
            RunningEntryV { canceled: true, ..r },
        )),
        !sends_status(step(s, EventV::Closed { pr }).cmds),
{
}

} // verus!
