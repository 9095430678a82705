//! The durable state store behind one or more pipelines.
//!
//! Per pipeline it keeps a FIFO queue of approved-but-not-yet-running
//! entries, an optional running slot (at most one entry is in flight), and a
//! pending set of open pull requests keyed by pull request, holding the
//! latest-known head commit.
//!
//! The store is modelled mathematically: the queue as a [`Seq`] of entry
//! views, the running slot as an [`Option`], and the pending set as a
//! [`Map`] from pull-request identity to head commit.  Every operation of
//! the [`Db`] trait says exactly how it moves that model.

pub mod sqlite;

use vstd::prelude::*;

use crate::pipeline::PipelineId;
use crate::ui::Pr;
use crate::vcs::Commit;

verus! {

/// An approved change waiting in the queue: the pull request, the reviewed
/// pull-side commit, and the text for the merge commit.
#[derive(Debug)]
pub struct QueueEntry {
    pub pr: Pr,
    pub commit: Commit,
    pub message: String,
}

/// Mathematical view of a [`QueueEntry`].
pub ghost struct QueueEntryV {
    pub pr: Seq<char>,
    pub commit: Seq<char>,
    pub message: Seq<char>,
}

impl View for QueueEntry {
    type V = QueueEntryV;

    open spec fn view(&self) -> QueueEntryV {
        QueueEntryV { pr: self.pr@, commit: self.commit@, message: self.message@ }
    }
}

impl Clone for QueueEntry {
    fn clone(&self) -> (r: Self)
        ensures
            r == *self,
    {
        QueueEntry { pr: self.pr.clone(), commit: self.commit.clone(), message: self.message.clone() }
    }
}

impl PartialEq for QueueEntry {
    fn eq(&self, other: &QueueEntry) -> (r: bool)
        ensures
            r == (self@ == other@),
    {
        self.pr == other.pr && self.commit == other.commit && self.message == other.message
    }
}

impl vstd::std_specs::cmp::PartialEqSpecImpl for QueueEntry {
    open spec fn obeys_eq_spec() -> bool {
        true
    }

    open spec fn eq_spec(&self, other: &QueueEntry) -> bool {
        self@ == other@
    }
}

/// The at-most-one active candidate of a pipeline.  `merge_commit` is set
/// once the staging merge succeeded; `built` once CI reported success;
/// `canceled` is an irreversible tag that silences every later transition of
/// this entry.
#[derive(Debug)]
pub struct RunningEntry {
    pub pr: Pr,
    pub pull_commit: Commit,
    pub merge_commit: Option<Commit>,
    pub message: String,
    pub canceled: bool,
    pub built: bool,
}

/// Mathematical view of a [`RunningEntry`].
pub ghost struct RunningEntryV {
    pub pr: Seq<char>,
    pub pull_commit: Seq<char>,
    pub merge_commit: Option<Seq<char>>,
    pub message: Seq<char>,
    pub canceled: bool,
    pub built: bool,
}

/// View of an optional commit, as an optional commit identity.
pub open spec fn commit_opt_view(c: Option<Commit>) -> Option<Seq<char>> {
    match c {
        Some(c) => Some(c@),
        None => None,
    }
}

impl View for RunningEntry {
    type V = RunningEntryV;

    open spec fn view(&self) -> RunningEntryV {
        RunningEntryV {
            pr: self.pr@,
            pull_commit: self.pull_commit@,
            merge_commit: commit_opt_view(self.merge_commit),
            message: self.message@,
            canceled: self.canceled,
            built: self.built,
        }
    }
}

impl Clone for RunningEntry {
    fn clone(&self) -> (r: Self)
        ensures
            r == *self,
    {
        RunningEntry {
            pr: self.pr.clone(),
            pull_commit: self.pull_commit.clone(),
            merge_commit: match &self.merge_commit {
                Some(c) => Some(c.clone()),
                None => None,
            },
            message: self.message.clone(),
            canceled: self.canceled,
            built: self.built,
        }
    }
}

impl PartialEq for RunningEntry {
    fn eq(&self, other: &RunningEntry) -> (r: bool)
        ensures
            r == (self@ == other@),
    {
        let merge_eq = match (&self.merge_commit, &other.merge_commit) {
            (Some(a), Some(b)) => a == b,
            (None, None) => true,
            _ => false,
        };
        self.pr == other.pr && self.pull_commit == other.pull_commit && merge_eq
            && self.message == other.message && self.canceled == other.canceled
            && self.built == other.built
    }
}

impl vstd::std_specs::cmp::PartialEqSpecImpl for RunningEntry {
    open spec fn obeys_eq_spec() -> bool {
        true
    }

    open spec fn eq_spec(&self, other: &RunningEntry) -> bool {
        self@ == other@
    }
}

/// A tracked open pull request with its latest-known head commit; it
/// resolves approvals that carry no commit.
#[derive(Debug)]
pub struct PendingEntry {
    pub pr: Pr,
    pub commit: Commit,
}

/// Mathematical view of a [`PendingEntry`].
pub ghost struct PendingEntryV {
    pub pr: Seq<char>,
    pub commit: Seq<char>,
}

impl View for PendingEntry {
    type V = PendingEntryV;

    open spec fn view(&self) -> PendingEntryV {
        PendingEntryV { pr: self.pr@, commit: self.commit@ }
    }
}

impl Clone for PendingEntry {
    fn clone(&self) -> (r: Self)
        ensures
            r == *self,
    {
        PendingEntry { pr: self.pr.clone(), commit: self.commit.clone() }
    }
}

impl PartialEq for PendingEntry {
    fn eq(&self, other: &PendingEntry) -> (r: bool)
        ensures
            r == (self@ == other@),
    {
        self.pr == other.pr && self.commit == other.commit
    }
}

impl vstd::std_specs::cmp::PartialEqSpecImpl for PendingEntry {
    open spec fn obeys_eq_spec() -> bool {
        true
    }

    open spec fn eq_spec(&self, other: &PendingEntry) -> bool {
        self@ == other@
    }
}

/// View of an optional running entry.
pub open spec fn running_opt_view(r: Option<RunningEntry>) -> Option<RunningEntryV> {
    match r {
        Some(e) => Some(e@),
        None => None,
    }
}

/// The pending list read as a map from pull request to head commit; a later
/// entry for the same pull request wins, as an upsert does.
pub open spec fn pending_as_map(s: Seq<PendingEntryV>) -> Map<Seq<char>, Seq<char>>
    decreases s.len(),
{
    if s.len() == 0 {
        Map::empty()
    } else {
        pending_as_map(s.drop_last()).insert(s.last().pr, s.last().commit)
    }
}

/// The queue after every entry of the given pull request was evicted.
pub open spec fn queue_without(q: Seq<QueueEntryV>, pr: Seq<char>) -> Seq<QueueEntryV> {
    q.filter(|e: QueueEntryV| e.pr != pr)
}

/// The queue after every entry of the given pull request whose commit
/// differs from the given one was evicted; an exact match stays.
pub open spec fn queue_without_stale(
    q: Seq<QueueEntryV>,
    pr: Seq<char>,
    commit: Seq<char>,
) -> Seq<QueueEntryV> {
    q.filter(|e: QueueEntryV| e.pr != pr || e.commit == commit)
}

/// The running slot after a cancel of the given pull request: a running
/// entry of that pull request gains the `canceled` tag, anything else stays.
pub open spec fn running_canceled(r: Option<RunningEntryV>, pr: Seq<char>) -> Option<
    RunningEntryV,
> {
    match r {
        Some(e) => if e.pr == pr {
            Some(RunningEntryV { canceled: true, ..e })
        } else {
            Some(e)
        },
        None => None,
    }
}

/// The running slot after a cancel of the given pull request guarded by a
/// differing pull commit.
pub open spec fn running_canceled_stale(
    r: Option<RunningEntryV>,
    pr: Seq<char>,
    commit: Seq<char>,
) -> Option<RunningEntryV> {
    match r {
        Some(e) => if e.pr == pr && e.pull_commit != commit {
            Some(RunningEntryV { canceled: true, ..e })
        } else {
            Some(e)
        },
        None => None,
    }
}

/// Whether a guarded cancel touches anything: a queued entry of the pull
/// request with a differing commit, or a running entry of the pull request
/// with a differing pull commit.
pub open spec fn stale_cancel_affects(
    q: Seq<QueueEntryV>,
    r: Option<RunningEntryV>,
    pr: Seq<char>,
    commit: Seq<char>,
) -> bool {
    ||| exists|i: int| 0 <= i < q.len() && #[trigger] q[i].pr == pr && q[i].commit != commit
    ||| match r {
        Some(e) => e.pr == pr && e.pull_commit != commit,
        None => false,
    }
}

/// The pending list after every entry of the given pull request was removed.
pub open spec fn pending_without(s: Seq<PendingEntryV>, pr: Seq<char>) -> Seq<PendingEntryV> {
    s.filter(|e: PendingEntryV| e.pr != pr)
}

/// Whether the pull requests of the pending entries are pairwise distinct:
/// the store keeps at most one pending entry per pull request.
pub open spec fn distinct_prs(s: Seq<PendingEntryV>) -> bool {
    forall|i: int, j: int|
        #![trigger s[i].pr, s[j].pr]
        0 <= i < j < s.len() ==> s[i].pr != s[j].pr
}

/// The view of a sequence of queue entries.
pub open spec fn queue_entries_view(s: Seq<QueueEntry>) -> Seq<QueueEntryV> {
    s.map_values(|e: QueueEntry| e@)
}

/// The view of a sequence of pending entries.
pub open spec fn pending_entries_view(s: Seq<PendingEntry>) -> Seq<PendingEntryV> {
    s.map_values(|e: PendingEntry| e@)
}

/// A key is in the pending map exactly when some entry of the list carries
/// it.
proof fn lemma_pending_as_map_dom(s: Seq<PendingEntryV>, k: Seq<char>)
    ensures
        pending_as_map(s).dom().contains(k) <==> exists|i: int|
            0 <= i < s.len() && #[trigger] s[i].pr == k,
    decreases s.len(),
{
    if s.len() > 0 {
        lemma_pending_as_map_dom(s.drop_last(), k);
        if pending_as_map(s).dom().contains(k) {
            if s.last().pr == k {
                assert(s[s.len() - 1].pr == k);
            } else {
                let i = choose|i: int| 0 <= i < s.drop_last().len() && #[trigger] s.drop_last()[i].pr == k;
                assert(s[i].pr == k);
            }
        }
        if exists|i: int| 0 <= i < s.len() && #[trigger] s[i].pr == k {
            let i = choose|i: int| 0 <= i < s.len() && #[trigger] s[i].pr == k;
            if i < s.len() - 1 {
                assert(s.drop_last()[i].pr == k);
            }
        }
    }
}

/// Under distinct pull requests, the map value of an entry's key is that
/// entry's commit.
proof fn lemma_pending_as_map_lookup(s: Seq<PendingEntryV>, i: int)
    requires
        distinct_prs(s),
        0 <= i < s.len(),
    ensures
        pending_as_map(s).dom().contains(s[i].pr),
        pending_as_map(s)[s[i].pr] == s[i].commit,
    decreases s.len(),
{
    if i == s.len() - 1 {
    } else {
        assert(distinct_prs(s.drop_last())) by {
            assert(forall|a: int, b: int|
                #![trigger s.drop_last()[a].pr, s.drop_last()[b].pr]
                0 <= a < b < s.drop_last().len() ==> s.drop_last()[a].pr == s[a].pr
                    && s.drop_last()[b].pr == s[b].pr);
        }
        assert(s.drop_last()[i] == s[i]);
        lemma_pending_as_map_lookup(s.drop_last(), i);
        assert(s.last().pr != s[i].pr);
    }
}

/// Removing a pull request from the list removes its key from the map.
proof fn lemma_pending_without_as_map(s: Seq<PendingEntryV>, pr: Seq<char>)
    ensures
        pending_as_map(pending_without(s, pr)) == pending_as_map(s).remove(pr),
    decreases s.len(),
{
    reveal(Seq::filter);
    if s.len() == 0 {
        assert(pending_as_map(pending_without(s, pr)) =~= pending_as_map(s).remove(pr));
    } else {
        lemma_pending_without_as_map(s.drop_last(), pr);
        let last = s.last();
        if last.pr != pr {
            assert(pending_without(s, pr) == pending_without(s.drop_last(), pr).push(last));
            assert(pending_without(s, pr).drop_last() =~= pending_without(s.drop_last(), pr));
            assert(pending_as_map(pending_without(s, pr)) =~= pending_as_map(s).remove(pr));
        } else {
            assert(pending_as_map(pending_without(s, pr)) =~= pending_as_map(s).remove(pr));
        }
    }
}

/// Every entry kept by `pending_without` comes from the list it filtered.
proof fn lemma_pending_without_subset(s: Seq<PendingEntryV>, pr: Seq<char>, x: PendingEntryV)
    requires
        pending_without(s, pr).contains(x),
    ensures
        s.contains(x),
        x.pr != pr,
    decreases s.len(),
{
    reveal(Seq::filter);
    if s.len() > 0 {
        let pw = pending_without(s, pr);
        let sub = pending_without(s.drop_last(), pr);
        if s.last().pr != pr && x == s.last() {
            assert(s.contains(x)) by {
                assert(s[s.len() - 1] == x);
            }
        } else {
            assert(sub.contains(x)) by {
                let i = choose|i: int| 0 <= i < pw.len() && pw[i] == x;
                if s.last().pr != pr {
                    assert(pw == sub.push(s.last()));
                    assert(sub[i] == x);
                } else {
                    assert(pw == sub);
                }
            }
            lemma_pending_without_subset(s.drop_last(), pr, x);
            let i = choose|i: int| 0 <= i < s.drop_last().len() && s.drop_last()[i] == x;
            assert(s[i] == x);
        }
    }
}

/// Removing a pull request keeps the remaining pull requests distinct.
proof fn lemma_pending_without_distinct(s: Seq<PendingEntryV>, pr: Seq<char>)
    requires
        distinct_prs(s),
    ensures
        distinct_prs(pending_without(s, pr)),
        forall|i: int|
            0 <= i < pending_without(s, pr).len() ==> #[trigger] pending_without(s, pr)[i].pr != pr,
    decreases s.len(),
{
    reveal(Seq::filter);
    let pw = pending_without(s, pr);
    if s.len() > 0 {
        assert(distinct_prs(s.drop_last())) by {
            assert(forall|a: int, b: int|
                #![trigger s.drop_last()[a].pr, s.drop_last()[b].pr]
                0 <= a < b < s.drop_last().len() ==> s.drop_last()[a].pr == s[a].pr
                    && s.drop_last()[b].pr == s[b].pr);
        }
        lemma_pending_without_distinct(s.drop_last(), pr);
        let sub = pending_without(s.drop_last(), pr);
        if s.last().pr != pr {
            assert(pw == sub.push(s.last()));
            assert forall|i: int, j: int|
                #![trigger pw[i].pr, pw[j].pr]
                0 <= i < j < pw.len() implies pw[i].pr != pw[j].pr by {
                if j < pw.len() - 1 {
                    assert(sub[i].pr != sub[j].pr);
                } else {
                    assert(sub.contains(pw[i])) by {
                        assert(sub[i] == pw[i]);
                    }
                    lemma_pending_without_subset(s.drop_last(), pr, pw[i]);
                    let a = choose|a: int|
                        0 <= a < s.drop_last().len() && s.drop_last()[a] == pw[i];
                    assert(s[a].pr == pw[i].pr);
                    assert(s[a].pr != s[s.len() - 1].pr);
                }
            }
        } else {
            assert(pw == sub);
        }
    }
}

/// Eviction by pull request distributes over appending an entry.
proof fn lemma_queue_without_push(q: Seq<QueueEntryV>, e: QueueEntryV, pr: Seq<char>)
    ensures
        queue_without(q.push(e), pr) == (if e.pr != pr {
            queue_without(q, pr).push(e)
        } else {
            queue_without(q, pr)
        }),
{
    reveal(Seq::filter);
    assert(q.push(e).drop_last() =~= q);
}

/// Guarded eviction distributes over appending an entry.
proof fn lemma_queue_without_stale_push(
    q: Seq<QueueEntryV>,
    e: QueueEntryV,
    pr: Seq<char>,
    commit: Seq<char>,
)
    ensures
        queue_without_stale(q.push(e), pr, commit) == (if e.pr != pr || e.commit == commit {
            queue_without_stale(q, pr, commit).push(e)
        } else {
            queue_without_stale(q, pr, commit)
        }),
{
    reveal(Seq::filter);
    assert(q.push(e).drop_last() =~= q);
}

/// Removal by pull request distributes over appending an entry.
proof fn lemma_pending_without_push(s: Seq<PendingEntryV>, e: PendingEntryV, pr: Seq<char>)
    ensures
        pending_without(s.push(e), pr) == (if e.pr != pr {
            pending_without(s, pr).push(e)
        } else {
            pending_without(s, pr)
        }),
{
    reveal(Seq::filter);
    assert(s.push(e).drop_last() =~= s);
}

/// The transactional store interface of the engine.
///
/// Each operation is atomic with respect to the next inbound event.  The
/// model functions `queue`, `running` and `pending` give the per-pipeline
/// contents; every method states how it moves them and that it leaves the
/// other collections of the same pipeline alone.
pub trait Db: Sized {
    /// The queue of the pipeline, head first.
    spec fn queue(&self, pipeline: int) -> Seq<QueueEntryV>;

    /// The running slot of the pipeline.
    spec fn running(&self, pipeline: int) -> Option<RunningEntryV>;

    /// The pending set of the pipeline, keyed by pull request.
    spec fn pending(&self, pipeline: int) -> Map<Seq<char>, Seq<char>>;

    /// Append an entry to the queue tail.
    fn push_queue(&mut self, pipeline_id: PipelineId, entry: QueueEntry)
        ensures
            final(self).queue(pipeline_id@) == old(self).queue(pipeline_id@).push(entry@),
            final(self).running(pipeline_id@) == old(self).running(pipeline_id@),
            final(self).pending(pipeline_id@) == old(self).pending(pipeline_id@),
    ;

    /// Remove and return the queue head, in one transaction.
    fn pop_queue(&mut self, pipeline_id: PipelineId) -> (r: Option<QueueEntry>)
        ensures
            old(self).queue(pipeline_id@).len() == 0 ==> {
                &&& r is None
                &&& final(self).queue(pipeline_id@) == old(self).queue(pipeline_id@)
            },
            old(self).queue(pipeline_id@).len() > 0 ==> match r {
                Some(e) => {
                    &&& e@ == old(self).queue(pipeline_id@).first()
                    &&& final(self).queue(pipeline_id@) == old(self).queue(
                        pipeline_id@,
                    ).drop_first()
                },
                None => false,
            },
            final(self).running(pipeline_id@) == old(self).running(pipeline_id@),
            final(self).pending(pipeline_id@) == old(self).pending(pipeline_id@),
    ;

    /// The queue in insertion order, for inspection only.
    fn list_queue(&mut self, pipeline_id: PipelineId) -> (r: Vec<QueueEntry>)
        ensures
            r@.map_values(|e: QueueEntry| e@) == final(self).queue(pipeline_id@),
            final(self).queue(pipeline_id@) == old(self).queue(pipeline_id@),
            final(self).running(pipeline_id@) == old(self).running(pipeline_id@),
            final(self).pending(pipeline_id@) == old(self).pending(pipeline_id@),
    ;

    /// Upsert the running slot.
    fn put_running(&mut self, pipeline_id: PipelineId, entry: RunningEntry)
        ensures
            final(self).running(pipeline_id@) == Some(entry@),
            final(self).queue(pipeline_id@) == old(self).queue(pipeline_id@),
            final(self).pending(pipeline_id@) == old(self).pending(pipeline_id@),
    ;

    /// Return and clear the running slot, in one transaction.
    fn take_running(&mut self, pipeline_id: PipelineId) -> (r: Option<RunningEntry>)
        ensures
            running_opt_view(r) == old(self).running(pipeline_id@),
            final(self).running(pipeline_id@) is None,
            final(self).queue(pipeline_id@) == old(self).queue(pipeline_id@),
            final(self).pending(pipeline_id@) == old(self).pending(pipeline_id@),
    ;

    /// Return the running slot without clearing it.
    fn peek_running(&mut self, pipeline_id: PipelineId) -> (r: Option<RunningEntry>)
        ensures
            running_opt_view(r) == old(self).running(pipeline_id@),
            final(self).queue(pipeline_id@) == old(self).queue(pipeline_id@),
            final(self).running(pipeline_id@) == old(self).running(pipeline_id@),
            final(self).pending(pipeline_id@) == old(self).pending(pipeline_id@),
    ;

    /// Upsert a pending entry, keyed by its pull request.
    fn add_pending(&mut self, pipeline_id: PipelineId, entry: PendingEntry)
        ensures
            final(self).pending(pipeline_id@) == old(self).pending(pipeline_id@).insert(
                entry.pr@,
                entry.commit@,
            ),
            final(self).queue(pipeline_id@) == old(self).queue(pipeline_id@),
            final(self).running(pipeline_id@) == old(self).running(pipeline_id@),
    ;

    /// Look up the pending entry of a pull request.
    fn peek_pending_by_pr(&mut self, pipeline_id: PipelineId, pr: &Pr) -> (r: Option<PendingEntry>)
        ensures
            match r {
                Some(e) => {
                    &&& old(self).pending(pipeline_id@).dom().contains(pr@)
                    &&& e.pr@ == pr@
                    &&& e.commit@ == old(self).pending(pipeline_id@)[pr@]
                },
                None => !old(self).pending(pipeline_id@).dom().contains(pr@),
            },
            final(self).queue(pipeline_id@) == old(self).queue(pipeline_id@),
            final(self).running(pipeline_id@) == old(self).running(pipeline_id@),
            final(self).pending(pipeline_id@) == old(self).pending(pipeline_id@),
    ;

    /// Remove and return the pending entry of a pull request, in one
    /// transaction.
    fn take_pending_by_pr(&mut self, pipeline_id: PipelineId, pr: &Pr) -> (r: Option<PendingEntry>)
        ensures
            match r {
                Some(e) => {
                    &&& old(self).pending(pipeline_id@).dom().contains(pr@)
                    &&& e.pr@ == pr@
                    &&& e.commit@ == old(self).pending(pipeline_id@)[pr@]
                },
                None => !old(self).pending(pipeline_id@).dom().contains(pr@),
            },
            final(self).pending(pipeline_id@) == old(self).pending(pipeline_id@).remove(pr@),
            final(self).queue(pipeline_id@) == old(self).queue(pipeline_id@),
            final(self).running(pipeline_id@) == old(self).running(pipeline_id@),
    ;

    /// The pending set, one row per tracked pull request, in no promised
    /// order.
    fn list_pending(&mut self, pipeline_id: PipelineId) -> (r: Vec<PendingEntry>)
        ensures
            forall|i: int|
                0 <= i < r@.len() ==> final(self).pending(pipeline_id@).contains_pair(
                    #[trigger] r@[i].pr@,
                    r@[i].commit@,
                ),
            forall|k: Seq<char>|
                final(self).pending(pipeline_id@).dom().contains(k) ==> exists|i: int|
                    0 <= i < r@.len() && #[trigger] r@[i].pr@ == k,
            forall|i: int, j: int|
                #![trigger r@[i].pr@, r@[j].pr@]
                0 <= i < j < r@.len() ==> r@[i].pr@ != r@[j].pr@,
            final(self).queue(pipeline_id@) == old(self).queue(pipeline_id@),
            final(self).running(pipeline_id@) == old(self).running(pipeline_id@),
            final(self).pending(pipeline_id@) == old(self).pending(pipeline_id@),
    ;

    /// Cancel everything of a pull request: evict its queued entries and tag
    /// a running entry of it as canceled.
    fn cancel_by_pr(&mut self, pipeline_id: PipelineId, pr: &Pr)
        ensures
            final(self).queue(pipeline_id@) == queue_without(old(self).queue(pipeline_id@), pr@),
            final(self).running(pipeline_id@) == running_canceled(
                old(self).running(pipeline_id@),
                pr@,
            ),
            final(self).pending(pipeline_id@) == old(self).pending(pipeline_id@),
    ;

    /// Cancel everything of a pull request whose commit differs from the
    /// given one; an exact match is left alone.  Returns whether anything
    /// was touched.
    fn cancel_by_pr_different_commit(
        &mut self,
        pipeline_id: PipelineId,
        pr: &Pr,
        commit: &Commit,
    ) -> (b: bool)
        ensures
            final(self).queue(pipeline_id@) == queue_without_stale(
                old(self).queue(pipeline_id@),
                pr@,
                commit@,
            ),
            final(self).running(pipeline_id@) == running_canceled_stale(
                old(self).running(pipeline_id@),
                pr@,
                commit@,
            ),
            final(self).pending(pipeline_id@) == old(self).pending(pipeline_id@),
            b == stale_cancel_affects(
                old(self).queue(pipeline_id@),
                old(self).running(pipeline_id@),
                pr@,
                commit@,
            ),
    ;
}

/// In-memory implementation of [`Db`], with every operation verified against
/// the store contract.  It keeps a single pipeline's worth of state and
/// ignores the pipeline id it is handed; it is the store of choice for tests
/// and for pipelines that need no durability.
pub struct MemoryDb {
    queue: Vec<QueueEntry>,
    running: Option<RunningEntry>,
    pending: Vec<PendingEntry>,
}

impl MemoryDb {
    /// The pending list is a keyed set: at most one entry per pull request.
    #[verifier::type_invariant]
    spec fn wf(self) -> bool {
        distinct_prs(pending_entries_view(self.pending@))
    }

    /// A fresh, empty store.
    pub fn new() -> (r: MemoryDb)
        ensures
            forall|p: int| #[trigger] r.queue(p) == Seq::<QueueEntryV>::empty(),
            forall|p: int| #[trigger] r.running(p) is None,
            forall|p: int| #[trigger] r.pending(p) == Map::<Seq<char>, Seq<char>>::empty(),
    {
        let r = MemoryDb { queue: Vec::new(), running: None, pending: Vec::new() };
        proof {
            assert(queue_entries_view(r.queue@) =~= Seq::<QueueEntryV>::empty());
            assert(pending_entries_view(r.pending@) =~= Seq::<PendingEntryV>::empty());
        }
        r
    }

    /// Find the pending entry of a pull request, without touching anything.
    fn find_pending(&self, pr: &Pr) -> (r: Option<PendingEntry>)
        ensures
            match r {
                Some(e) => {
                    &&& self.pending(0).dom().contains(pr@)
                    &&& e.pr@ == pr@
                    &&& e.commit@ == self.pending(0)[pr@]
                },
                None => !self.pending(0).dom().contains(pr@),
            },
    {
        proof {
            use_type_invariant(self);
        }
        let ghost pv = pending_entries_view(self.pending@);
        let mut i: usize = 0;
        while i < self.pending.len()
            invariant
                i <= self.pending.len(),
                pv == pending_entries_view(self.pending@),
                distinct_prs(pv),
                forall|j: int| 0 <= j < i ==> #[trigger] pv[j].pr != pr@,
            decreases self.pending.len() - i,
        {
            if self.pending[i].pr == *pr {
                let e = self.pending[i].clone();
                proof {
                    lemma_pending_as_map_lookup(pv, i as int);
                }
                return Some(e);
            }
            i += 1;
        }
        proof {
            lemma_pending_as_map_dom(pv, pr@);
        }
        None
    }

    /// Remove every pending entry of a pull request, returning the kept
    /// list.
    fn pending_minus(&self, pr: &Pr) -> (r: Vec<PendingEntry>)
        ensures
            pending_entries_view(r@) == pending_without(pending_entries_view(self.pending@), pr@),
    {
        let ghost pv = pending_entries_view(self.pending@);
        let mut kept: Vec<PendingEntry> = Vec::new();
        let mut i: usize = 0;
        while i < self.pending.len()
            invariant
                i <= self.pending.len(),
                pv == pending_entries_view(self.pending@),
                pending_entries_view(kept@) == pending_without(pv.take(i as int), pr@),
            decreases self.pending.len() - i,
        {
            let ghost prev = pending_entries_view(kept@);
            if !(self.pending[i].pr == *pr) {
                kept.push(self.pending[i].clone());
                proof {
                    assert(pending_entries_view(kept@) =~= prev.push(pv[i as int]));
                }
            }
            proof {
                pv.lemma_take_succ_push(i as int);
                lemma_pending_without_push(pv.take(i as int), pv[i as int], pr@);
            }
            i += 1;
        }
        proof {
            assert(pv.take(self.pending.len() as int) =~= pv);
        }
        kept
    }
}

impl Db for MemoryDb {
    closed spec fn queue(&self, pipeline: int) -> Seq<QueueEntryV> {
        queue_entries_view(self.queue@)
    }

    closed spec fn running(&self, pipeline: int) -> Option<RunningEntryV> {
        running_opt_view(self.running)
    }

    closed spec fn pending(&self, pipeline: int) -> Map<Seq<char>, Seq<char>> {
        pending_as_map(pending_entries_view(self.pending@))
    }

    fn push_queue(&mut self, _pipeline_id: PipelineId, entry: QueueEntry) {
        proof {
            use_type_invariant(&*self);
        }
        let ghost prev = queue_entries_view(self.queue@);
        let mut q: Vec<QueueEntry> = Vec::new();
        std::mem::swap(&mut q, &mut self.queue);
        q.push(entry);
        self.queue = q;
        proof {
            assert(queue_entries_view(self.queue@) =~= prev.push(entry@));
        }
    }

    fn pop_queue(&mut self, _pipeline_id: PipelineId) -> (r: Option<QueueEntry>) {
        proof {
            use_type_invariant(&*self);
        }
        if self.queue.len() == 0 {
            proof {
                assert(queue_entries_view(self.queue@).len() == 0);
            }
            None
        } else {
            let ghost prev = queue_entries_view(self.queue@);
            let mut q: Vec<QueueEntry> = Vec::new();
            std::mem::swap(&mut q, &mut self.queue);
            let e = q.remove(0);
            self.queue = q;
            proof {
                assert(queue_entries_view(self.queue@) =~= prev.drop_first());
                assert(e@ == prev.first());
            }
            Some(e)
        }
    }

    fn list_queue(&mut self, _pipeline_id: PipelineId) -> (r: Vec<QueueEntry>) {
        let mut out: Vec<QueueEntry> = Vec::new();
        let mut i: usize = 0;
        while i < self.queue.len()
            invariant
                i <= self.queue.len(),
                out@ == self.queue@.take(i as int),
            decreases self.queue.len() - i,
        {
            out.push(self.queue[i].clone());
            proof {
                self.queue@.lemma_take_succ_push(i as int);
            }
            i += 1;
        }
        proof {
            assert(self.queue@.take(self.queue.len() as int) =~= self.queue@);
            assert(queue_entries_view(out@) =~= queue_entries_view(self.queue@));
        }
        out
    }

    fn put_running(&mut self, _pipeline_id: PipelineId, entry: RunningEntry) {
        proof {
            use_type_invariant(&*self);
        }
        self.running = Some(entry);
    }

    fn take_running(&mut self, _pipeline_id: PipelineId) -> (r: Option<RunningEntry>) {
        proof {
            use_type_invariant(&*self);
        }
        let mut cur: Option<RunningEntry> = None;
        std::mem::swap(&mut cur, &mut self.running);
        cur
    }

    fn peek_running(&mut self, _pipeline_id: PipelineId) -> (r: Option<RunningEntry>) {
        match &self.running {
            Some(e) => Some(e.clone()),
            None => None,
        }
    }

    fn add_pending(&mut self, _pipeline_id: PipelineId, entry: PendingEntry) {
        proof {
            use_type_invariant(&*self);
        }
        let ghost pv = pending_entries_view(self.pending@);
        let mut kept = self.pending_minus(&entry.pr);
        let ghost keptv = pending_entries_view(kept@);
        kept.push(entry);
        proof {
            lemma_pending_without_as_map(pv, entry.pr@);
            lemma_pending_without_distinct(pv, entry.pr@);
            assert(pending_entries_view(kept@) =~= keptv.push(entry@));
            assert((keptv.push(entry@)).drop_last() =~= keptv);
            assert(pending_as_map(keptv.push(entry@)) == pending_as_map(keptv).insert(
                entry.pr@,
                entry.commit@,
            ));
            assert(pending_as_map(pending_entries_view(kept@)) =~= pending_as_map(pv).insert(
                entry.pr@,
                entry.commit@,
            ));
            assert(distinct_prs(pending_entries_view(kept@))) by {
                assert(forall|i: int|
                    0 <= i < keptv.len() ==> #[trigger] keptv[i].pr == pending_without(
                        pv,
                        entry.pr@,
                    )[i].pr);
            }
        }
        self.pending = kept;
    }

    fn peek_pending_by_pr(&mut self, _pipeline_id: PipelineId, pr: &Pr) -> (r: Option<
        PendingEntry,
    >) {
        self.find_pending(pr)
    }

    fn take_pending_by_pr(&mut self, _pipeline_id: PipelineId, pr: &Pr) -> (r: Option<
        PendingEntry,
    >) {
        proof {
            use_type_invariant(&*self);
        }
        let ghost pv = pending_entries_view(self.pending@);
        let found = self.find_pending(pr);
        let kept = self.pending_minus(pr);
        proof {
            lemma_pending_without_as_map(pv, pr@);
            lemma_pending_without_distinct(pv, pr@);
        }
        self.pending = kept;
        found
    }

    fn list_pending(&mut self, _pipeline_id: PipelineId) -> (r: Vec<PendingEntry>) {
        proof {
            use_type_invariant(&*self);
        }
        let ghost pv = pending_entries_view(self.pending@);
        let mut out: Vec<PendingEntry> = Vec::new();
        let mut i: usize = 0;
        while i < self.pending.len()
            invariant
                i <= self.pending.len(),
                pv == pending_entries_view(self.pending@),
                out@ == self.pending@.take(i as int),
            decreases self.pending.len() - i,
        {
            out.push(self.pending[i].clone());
            proof {
                self.pending@.lemma_take_succ_push(i as int);
            }
            i += 1;
        }
        proof {
            assert(self.pending@.take(self.pending.len() as int) =~= self.pending@);
            assert(pending_entries_view(out@) =~= pv);
            assert forall|i2: int| 0 <= i2 < out@.len() implies self.pending(
                _pipeline_id@,
            ).contains_pair(#[trigger] out@[i2].pr@, out@[i2].commit@) by {
                assert(pv[i2] == out@[i2]@);
                lemma_pending_as_map_lookup(pv, i2);
            }
            assert forall|k: Seq<char>| self.pending(_pipeline_id@).dom().contains(k) implies exists|
                i2: int,
            | 0 <= i2 < out@.len() && #[trigger] out@[i2].pr@ == k by {
                lemma_pending_as_map_dom(pv, k);
                let i2 = choose|i2: int| 0 <= i2 < pv.len() && #[trigger] pv[i2].pr == k;
                assert(out@[i2].pr@ == k);
            }
            assert forall|i2: int, j2: int|
                #![trigger out@[i2].pr@, out@[j2].pr@]
                0 <= i2 < j2 < out@.len() implies out@[i2].pr@ != out@[j2].pr@ by {
                assert(pv[i2].pr != pv[j2].pr);
                assert(out@[i2].pr@ == pv[i2].pr);
                assert(out@[j2].pr@ == pv[j2].pr);
            }
        }
        out
    }

    fn cancel_by_pr(&mut self, _pipeline_id: PipelineId, pr: &Pr) {
        proof {
            use_type_invariant(&*self);
        }
        let ghost qv = queue_entries_view(self.queue@);
        let mut kept: Vec<QueueEntry> = Vec::new();
        let mut i: usize = 0;
        while i < self.queue.len()
            invariant
                i <= self.queue.len(),
                qv == queue_entries_view(self.queue@),
                queue_entries_view(kept@) == queue_without(qv.take(i as int), pr@),
            decreases self.queue.len() - i,
        {
            let ghost prev = queue_entries_view(kept@);
            if !(self.queue[i].pr == *pr) {
                kept.push(self.queue[i].clone());
                proof {
                    assert(queue_entries_view(kept@) =~= prev.push(qv[i as int]));
                }
            }
            proof {
                qv.lemma_take_succ_push(i as int);
                lemma_queue_without_push(qv.take(i as int), qv[i as int], pr@);
            }
            i += 1;
        }
        proof {
            assert(qv.take(self.queue.len() as int) =~= qv);
        }
        self.queue = kept;
        let mut cur: Option<RunningEntry> = None;
        std::mem::swap(&mut cur, &mut self.running);
        match cur {
            Some(mut e) => {
                if e.pr == *pr {
                    e.canceled = true;
                }
                self.running = Some(e);
            },
            None => {},
        }
    }

    fn cancel_by_pr_different_commit(
        &mut self,
        _pipeline_id: PipelineId,
        pr: &Pr,
        commit: &Commit,
    ) -> (b: bool) {
        proof {
            use_type_invariant(&*self);
        }
        let ghost qv = queue_entries_view(self.queue@);
        let mut kept: Vec<QueueEntry> = Vec::new();
        let mut touched = false;
        let mut i: usize = 0;
        while i < self.queue.len()
            invariant
                i <= self.queue.len(),
                qv == queue_entries_view(self.queue@),
                queue_entries_view(kept@) == queue_without_stale(qv.take(i as int), pr@, commit@),
                touched <==> exists|j: int|
                    0 <= j < i && #[trigger] qv[j].pr == pr@ && qv[j].commit != commit@,
            decreases self.queue.len() - i,
        {
            let ghost prev = queue_entries_view(kept@);
            if self.queue[i].pr == *pr && !(self.queue[i].commit == *commit) {
                touched = true;
                proof {
                    assert(qv[i as int].pr == pr@ && qv[i as int].commit != commit@);
                }
            } else {
                kept.push(self.queue[i].clone());
                proof {
                    assert(queue_entries_view(kept@) =~= prev.push(qv[i as int]));
                }
            }
            proof {
                qv.lemma_take_succ_push(i as int);
                lemma_queue_without_stale_push(qv.take(i as int), qv[i as int], pr@, commit@);
            }
            i += 1;
        }
        proof {
            assert(qv.take(self.queue.len() as int) =~= qv);
        }
        self.queue = kept;
        let mut b = touched;
        let mut cur: Option<RunningEntry> = None;
        std::mem::swap(&mut cur, &mut self.running);
        match cur {
            Some(mut e) => {
                if e.pr == *pr && !(e.pull_commit == *commit) {
                    e.canceled = true;
                    b = true;
                }
                self.running = Some(e);
            },
            None => {},
        }
        b
    }
}

} // verus!
