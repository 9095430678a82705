//! The durable store: every collection lives in a SQLite database, so a
//! restart reconstructs the exact in-flight state from the file alone.
//!
//! The database contents are named by three uninterpreted functions —
//! [`sqlite_queue`], [`sqlite_running`], [`sqlite_pending`] — and each store
//! operation is a trusted wrapper around the SQL that moves them.  Store
//! failures are fatal, as the durability contract demands: the wrappers
//! halt the process rather than return a partial result.

use rusqlite::OptionalExtension;
use vstd::prelude::*;

use crate::db::{Db, PendingEntry, QueueEntry, QueueEntryV, RunningEntry, RunningEntryV};
use crate::pipeline::PipelineId;
use crate::ui::Pr;
use crate::vcs::Commit;

verus! {

#[verifier::external_type_specification]
#[verifier::external_body]
pub struct ExConnection(rusqlite::Connection);

/// The queue rows of a pipeline held in the database, head first, read as
/// entry views.
pub uninterp spec fn sqlite_queue(conn: rusqlite::Connection, pipeline: int) -> Seq<QueueEntryV>;

/// The running row of a pipeline held in the database, if any, read as an
/// entry view.
pub uninterp spec fn sqlite_running(conn: rusqlite::Connection, pipeline: int) -> Option<
    RunningEntryV,
>;

/// The pending rows of a pipeline held in the database, keyed by pull
/// request.
pub uninterp spec fn sqlite_pending(conn: rusqlite::Connection, pipeline: int) -> Map<
    Seq<char>,
    Seq<char>,
>;

/// The SQLite-backed implementation of [`Db`].  Its model functions read
/// the named database contents; every operation is a single SQL statement
/// or one transaction, scoped by `pipeline_id`, so the collections of other
/// pipelines never move.
pub struct SqliteDb {
    conn: rusqlite::Connection,
}

/// A store failure surfaced while opening the database; the message is the
/// database engine's.
#[derive(Debug)]
pub struct StoreError {
    pub message: String,
}

impl SqliteDb {
    /// Whether every collection of every pipeline is empty.
    pub closed spec fn is_empty(&self) -> bool {
        &&& forall|p: int| (#[trigger] sqlite_queue(self.conn, p)).len() == 0
        &&& forall|p: int| (#[trigger] sqlite_running(self.conn, p)) is None
        &&& forall|p: int| (#[trigger] sqlite_pending(self.conn, p)) == Map::<
            Seq<char>,
            Seq<char>,
        >::empty()
    }

    /// Whether the collections of every pipeline but the given one are the
    /// same in both stores.
    closed spec fn others_same(pre: &SqliteDb, post: &SqliteDb, pipeline: int) -> bool {
        &&& forall|p: int|
            p != pipeline ==> (#[trigger] sqlite_queue(post.conn, p)) == sqlite_queue(pre.conn, p)
        &&& forall|p: int|
            p != pipeline ==> (#[trigger] sqlite_running(post.conn, p)) == sqlite_running(
                pre.conn,
                p,
            )
        &&& forall|p: int|
            p != pipeline ==> (#[trigger] sqlite_pending(post.conn, p)) == sqlite_pending(
                pre.conn,
                p,
            )
    }

    /// Open or create the store at the given path.  The tables are created
    /// if missing; what an earlier run left in them is untouched, and is
    /// what the model functions then read.
    pub fn open(path: &str) -> Result<SqliteDb, StoreError> {
        match open_file(path) {
            Ok(db) => Ok(db),
            Err(message) => Err(StoreError { message }),
        }
    }

    /// Open a fresh store held in memory alone: every collection starts
    /// empty.  It backs tests and pipelines that need no durability.
    pub fn open_in_memory() -> (r: Result<SqliteDb, StoreError>)
        ensures
            match r {
                Ok(db) => db.is_empty(),
                Err(_) => true,
            },
    {
        match open_memory() {
            Ok(db) => Ok(db),
            Err(message) => Err(StoreError { message }),
        }
    }
}

const SCHEMA: &'static str = "
    CREATE TABLE IF NOT EXISTS queue (
        id INTEGER PRIMARY KEY,
        pipeline_id INTEGER,
        pr TEXT,
        message TEXT,
        pull_commit TEXT
    );
    CREATE TABLE IF NOT EXISTS running (
        pipeline_id INTEGER PRIMARY KEY,
        pr TEXT,
        message TEXT,
        pull_commit TEXT,
        merge_commit TEXT,
        canceled INT,
        built INT
    );
    CREATE TABLE IF NOT EXISTS pending (
        id INTEGER PRIMARY KEY,
        pipeline_id INTEGER,
        pr TEXT,
        pull_commit TEXT,
        UNIQUE (pipeline_id, pr)
    );
";

/// Relies on `rusqlite::Connection::open` and `execute_batch`: opening the
/// file and creating the missing tables leaves earlier contents alone.
/// Nothing is promised of the contents: they are whatever the file held.
#[verifier::external_body]
fn open_file(path: &str) -> Result<SqliteDb, String> {
    let conn = rusqlite::Connection::open(path).map_err(|e| e.to_string())?;
    conn.execute_batch(SCHEMA).map_err(|e| e.to_string())?;
    Ok(SqliteDb { conn })
}

/// Relies on `rusqlite::Connection::open_in_memory` and `execute_batch`: a
/// fresh in-memory database holds nothing, so after the tables are created
/// every collection of every pipeline is empty.
#[verifier::external_body]
fn open_memory() -> (r: Result<SqliteDb, String>)
    ensures
        match r {
            Ok(db) => db.is_empty(),
            Err(_) => true,
        },
{
    let conn = rusqlite::Connection::open_in_memory().map_err(|e| e.to_string())?;
    conn.execute_batch(SCHEMA).map_err(|e| e.to_string())?;
    Ok(SqliteDb { conn })
}

impl Db for SqliteDb {
    closed spec fn queue(&self, pipeline: int) -> Seq<QueueEntryV> {
        sqlite_queue(self.conn, pipeline)
    }

    closed spec fn running(&self, pipeline: int) -> Option<RunningEntryV> {
        sqlite_running(self.conn, pipeline)
    }

    closed spec fn pending(&self, pipeline: int) -> Map<Seq<char>, Seq<char>> {
        sqlite_pending(self.conn, pipeline)
    }

    fn push_queue(&mut self, pipeline_id: PipelineId, entry: QueueEntry) {
        sql_push_queue(self, pipeline_id, entry)
    }

    fn pop_queue(&mut self, pipeline_id: PipelineId) -> (r: Option<QueueEntry>) {
        sql_pop_queue(self, pipeline_id)
    }

    fn list_queue(&mut self, pipeline_id: PipelineId) -> (r: Vec<QueueEntry>) {
        sql_list_queue(self, pipeline_id)
    }

    fn put_running(&mut self, pipeline_id: PipelineId, entry: RunningEntry) {
        sql_put_running(self, pipeline_id, entry)
    }

    fn take_running(&mut self, pipeline_id: PipelineId) -> (r: Option<RunningEntry>) {
        sql_take_running(self, pipeline_id)
    }

    fn peek_running(&mut self, pipeline_id: PipelineId) -> (r: Option<RunningEntry>) {
        sql_peek_running(self, pipeline_id)
    }

    fn add_pending(&mut self, pipeline_id: PipelineId, entry: PendingEntry) {
        sql_add_pending(self, pipeline_id, entry)
    }

    fn peek_pending_by_pr(&mut self, pipeline_id: PipelineId, pr: &Pr) -> (r: Option<
        PendingEntry,
    >) {
        sql_peek_pending(self, pipeline_id, pr)
    }

    fn take_pending_by_pr(&mut self, pipeline_id: PipelineId, pr: &Pr) -> (r: Option<
        PendingEntry,
    >) {
        sql_take_pending(self, pipeline_id, pr)
    }

    fn list_pending(&mut self, pipeline_id: PipelineId) -> (r: Vec<PendingEntry>) {
        sql_list_pending(self, pipeline_id)
    }

    fn cancel_by_pr(&mut self, pipeline_id: PipelineId, pr: &Pr) {
        sql_cancel_by_pr(self, pipeline_id, pr)
    }

    fn cancel_by_pr_different_commit(
        &mut self,
        pipeline_id: PipelineId,
        pr: &Pr,
        commit: &Commit,
    ) -> (b: bool) {
        sql_cancel_by_pr_different_commit(self, pipeline_id, pr, commit)
    }
}

/// Relies on `rusqlite::Connection::execute`: one INSERT appends one row
/// after every existing queue row of the pipeline (fresh rowids grow) and
/// touches no other table and no other pipeline.
#[verifier::external_body]
fn sql_push_queue(db: &mut SqliteDb, pipeline_id: PipelineId, entry: QueueEntry)
    ensures
        sqlite_queue(final(db).conn, pipeline_id@) == sqlite_queue(old(db).conn, pipeline_id@).push(entry@),
        sqlite_running(final(db).conn, pipeline_id@) == sqlite_running(old(db).conn, pipeline_id@),
        sqlite_pending(final(db).conn, pipeline_id@) == sqlite_pending(old(db).conn, pipeline_id@),
        SqliteDb::others_same(old(db), final(db), pipeline_id@),
{
    db.conn.execute(
        "INSERT INTO queue (pipeline_id, pr, pull_commit, message) VALUES (?1, ?2, ?3, ?4)",
        (pipeline_id.0, entry.pr.text(), entry.commit.text(), entry.message),
    ).expect("queue insert");
}

/// Relies on `rusqlite::Connection::transaction`, `query_row` and
/// `execute`: the row with the least id of the pipeline — the queue head —
/// is read and deleted in one transaction; with no row, nothing moves.
#[verifier::external_body]
fn sql_pop_queue(db: &mut SqliteDb, pipeline_id: PipelineId) -> (r: Option<QueueEntry>)
    ensures
        sqlite_queue(old(db).conn, pipeline_id@).len() == 0 ==> {
            &&& r is None
            &&& sqlite_queue(final(db).conn, pipeline_id@) == sqlite_queue(old(db).conn, pipeline_id@)
        },
        sqlite_queue(old(db).conn, pipeline_id@).len() > 0 ==> match r {
            Some(e) => {
                &&& e@ == sqlite_queue(old(db).conn, pipeline_id@).first()
                &&& sqlite_queue(final(db).conn, pipeline_id@) == sqlite_queue(
                    old(db).conn,
                    pipeline_id@,
                ).drop_first()
            },
            None => false,
        },
        sqlite_running(final(db).conn, pipeline_id@) == sqlite_running(old(db).conn, pipeline_id@),
        sqlite_pending(final(db).conn, pipeline_id@) == sqlite_pending(old(db).conn, pipeline_id@),
        SqliteDb::others_same(old(db), final(db), pipeline_id@),
{
    let tx = db.conn.transaction().expect("queue transaction");
    let row = tx.query_row(
        "SELECT id, pr, pull_commit, message FROM queue WHERE pipeline_id = ?1 ORDER BY id ASC LIMIT 1",
        (pipeline_id.0,),
        |r| Ok((r.get::<_, i64>(0)?, r.get(1)?, r.get(2)?, r.get(3)?)),
    ).optional().expect("queue head");
    let entry = if let Some((id, pr, commit, message)) = row {
        tx.execute("DELETE FROM queue WHERE id = ?1", (id,)).expect("queue delete");
        Some(QueueEntry { pr: Pr::new(pr), commit: Commit::new(commit), message })
    } else {
        None
    };
    tx.commit().expect("queue commit");
    entry
}

/// Relies on `rusqlite::Statement::query_map`: the queue rows of the
/// pipeline are read in id order, which is insertion order; nothing moves.
#[verifier::external_body]
fn sql_list_queue(db: &mut SqliteDb, pipeline_id: PipelineId) -> (r: Vec<QueueEntry>)
    ensures
        r@.map_values(|e: QueueEntry| e@) == sqlite_queue(final(db).conn, pipeline_id@),
        sqlite_queue(final(db).conn, pipeline_id@) == sqlite_queue(old(db).conn, pipeline_id@),
        sqlite_running(final(db).conn, pipeline_id@) == sqlite_running(old(db).conn, pipeline_id@),
        sqlite_pending(final(db).conn, pipeline_id@) == sqlite_pending(old(db).conn, pipeline_id@),
        SqliteDb::others_same(old(db), final(db), pipeline_id@),
{
    let mut stmt = db.conn.prepare(
        "SELECT pr, pull_commit, message FROM queue WHERE pipeline_id = ?1 ORDER BY id ASC",
    ).expect("queue list");
    let rows = stmt.query_map((pipeline_id.0,), |r| {
        Ok(QueueEntry { pr: Pr::new(r.get(0)?), commit: Commit::new(r.get(1)?), message: r.get(2)? })
    }).expect("queue rows");
    rows.collect::<Result<Vec<QueueEntry>, _>>().expect("queue row")
}

/// Relies on `rusqlite::Connection::execute`: REPLACE against the primary
/// key `pipeline_id` upserts the one running row of the pipeline.
#[verifier::external_body]
fn sql_put_running(db: &mut SqliteDb, pipeline_id: PipelineId, entry: RunningEntry)
    ensures
        sqlite_running(final(db).conn, pipeline_id@) == Some(entry@),
        sqlite_queue(final(db).conn, pipeline_id@) == sqlite_queue(old(db).conn, pipeline_id@),
        sqlite_pending(final(db).conn, pipeline_id@) == sqlite_pending(old(db).conn, pipeline_id@),
        SqliteDb::others_same(old(db), final(db), pipeline_id@),
{
    db.conn.execute(
        "REPLACE INTO running (pipeline_id, pr, pull_commit, merge_commit, message, canceled, built) VALUES (?1, ?2, ?3, ?4, ?5, ?6, ?7)",
        (
            pipeline_id.0,
            entry.pr.text(),
            entry.pull_commit.text(),
            entry.merge_commit.as_ref().map(|c| c.text()),
            entry.message,
            entry.canceled,
            entry.built,
        ),
    ).expect("running upsert");
}

/// Relies on `rusqlite::Connection::transaction`, `query_row` and
/// `execute`: the running row of the pipeline is read and deleted in one
/// transaction.
#[verifier::external_body]
fn sql_take_running(db: &mut SqliteDb, pipeline_id: PipelineId) -> (r: Option<RunningEntry>)
    ensures
        crate::db::running_opt_view(r) == sqlite_running(old(db).conn, pipeline_id@),
        sqlite_running(final(db).conn, pipeline_id@) is None,
        sqlite_queue(final(db).conn, pipeline_id@) == sqlite_queue(old(db).conn, pipeline_id@),
        sqlite_pending(final(db).conn, pipeline_id@) == sqlite_pending(old(db).conn, pipeline_id@),
        SqliteDb::others_same(old(db), final(db), pipeline_id@),
{
    let tx = db.conn.transaction().expect("running transaction");
    let row = tx.query_row(
        "SELECT pr, pull_commit, merge_commit, message, canceled, built FROM running WHERE pipeline_id = ?1",
        (pipeline_id.0,),
        |r| Ok((r.get(0)?, r.get(1)?, r.get::<_, Option<String>>(2)?, r.get(3)?, r.get(4)?, r.get(5)?)),
    ).optional().expect("running row");
    tx.execute("DELETE FROM running WHERE pipeline_id = ?1", (pipeline_id.0,))
        .expect("running delete");
    tx.commit().expect("running commit");
    row.map(running_entry_from_row)
}

/// Relies on `rusqlite::Connection::query_row`: the running row of the
/// pipeline is read; nothing moves.
#[verifier::external_body]
fn sql_peek_running(db: &mut SqliteDb, pipeline_id: PipelineId) -> (r: Option<RunningEntry>)
    ensures
        crate::db::running_opt_view(r) == sqlite_running(old(db).conn, pipeline_id@),
        sqlite_queue(final(db).conn, pipeline_id@) == sqlite_queue(old(db).conn, pipeline_id@),
        sqlite_running(final(db).conn, pipeline_id@) == sqlite_running(old(db).conn, pipeline_id@),
        sqlite_pending(final(db).conn, pipeline_id@) == sqlite_pending(old(db).conn, pipeline_id@),
        SqliteDb::others_same(old(db), final(db), pipeline_id@),
{
    db.conn.query_row(
        "SELECT pr, pull_commit, merge_commit, message, canceled, built FROM running WHERE pipeline_id = ?1",
        (pipeline_id.0,),
        |r| Ok((r.get(0)?, r.get(1)?, r.get::<_, Option<String>>(2)?, r.get(3)?, r.get(4)?, r.get(5)?)),
    ).optional().expect("running row").map(running_entry_from_row)
}

/// Relies on `rusqlite::Connection::transaction` and `execute`: the pending
/// row of the pull request is deleted and a fresh one inserted, in one
/// transaction — the keyed upsert.
#[verifier::external_body]
fn sql_add_pending(db: &mut SqliteDb, pipeline_id: PipelineId, entry: PendingEntry)
    ensures
        sqlite_pending(final(db).conn, pipeline_id@) == sqlite_pending(old(db).conn, pipeline_id@).insert(
            entry.pr@,
            entry.commit@,
        ),
        sqlite_queue(final(db).conn, pipeline_id@) == sqlite_queue(old(db).conn, pipeline_id@),
        sqlite_running(final(db).conn, pipeline_id@) == sqlite_running(old(db).conn, pipeline_id@),
        SqliteDb::others_same(old(db), final(db), pipeline_id@),
{
    let tx = db.conn.transaction().expect("pending transaction");
    tx.execute(
        "DELETE FROM pending WHERE pipeline_id = ?1 AND pr = ?2",
        (pipeline_id.0, entry.pr.text()),
    ).expect("pending delete");
    tx.execute(
        "INSERT INTO pending (pipeline_id, pr, pull_commit) VALUES (?1, ?2, ?3)",
        (pipeline_id.0, entry.pr.text(), entry.commit.text()),
    ).expect("pending insert");
    tx.commit().expect("pending commit");
}

/// Relies on `rusqlite::Connection::query_row`: the pending row of the pull
/// request is read — the schema keeps at most one; nothing moves.
#[verifier::external_body]
fn sql_peek_pending(db: &mut SqliteDb, pipeline_id: PipelineId, pr: &Pr) -> (r: Option<
    PendingEntry,
>)
    ensures
        match r {
            Some(e) => {
                &&& sqlite_pending(old(db).conn, pipeline_id@).dom().contains(pr@)
                &&& e.pr@ == pr@
                &&& e.commit@ == sqlite_pending(old(db).conn, pipeline_id@)[pr@]
            },
            None => !sqlite_pending(old(db).conn, pipeline_id@).dom().contains(pr@),
        },
        sqlite_queue(final(db).conn, pipeline_id@) == sqlite_queue(old(db).conn, pipeline_id@),
        sqlite_running(final(db).conn, pipeline_id@) == sqlite_running(old(db).conn, pipeline_id@),
        sqlite_pending(final(db).conn, pipeline_id@) == sqlite_pending(old(db).conn, pipeline_id@),
        SqliteDb::others_same(old(db), final(db), pipeline_id@),
{
    db.conn.query_row(
        "SELECT pr, pull_commit FROM pending WHERE pipeline_id = ?1 AND pr = ?2",
        (pipeline_id.0, pr.text()),
        |r| Ok(PendingEntry { pr: Pr::new(r.get(0)?), commit: Commit::new(r.get(1)?) }),
    ).optional().expect("pending row")
}

/// Relies on `rusqlite::Connection::transaction`, `query_row` and
/// `execute`: the pending row of the pull request is read and deleted in
/// one transaction.
#[verifier::external_body]
fn sql_take_pending(db: &mut SqliteDb, pipeline_id: PipelineId, pr: &Pr) -> (r: Option<
    PendingEntry,
>)
    ensures
        match r {
            Some(e) => {
                &&& sqlite_pending(old(db).conn, pipeline_id@).dom().contains(pr@)
                &&& e.pr@ == pr@
                &&& e.commit@ == sqlite_pending(old(db).conn, pipeline_id@)[pr@]
            },
            None => !sqlite_pending(old(db).conn, pipeline_id@).dom().contains(pr@),
        },
        sqlite_pending(final(db).conn, pipeline_id@) == sqlite_pending(old(db).conn, pipeline_id@).remove(pr@),
        sqlite_queue(final(db).conn, pipeline_id@) == sqlite_queue(old(db).conn, pipeline_id@),
        sqlite_running(final(db).conn, pipeline_id@) == sqlite_running(old(db).conn, pipeline_id@),
        SqliteDb::others_same(old(db), final(db), pipeline_id@),
{
    let tx = db.conn.transaction().expect("pending transaction");
    let row = tx.query_row(
        "SELECT pr, pull_commit FROM pending WHERE pipeline_id = ?1 AND pr = ?2",
        (pipeline_id.0, pr.text()),
        |r| Ok(PendingEntry { pr: Pr::new(r.get(0)?), commit: Commit::new(r.get(1)?) }),
    ).optional().expect("pending row");
    tx.execute(
        "DELETE FROM pending WHERE pipeline_id = ?1 AND pr = ?2",
        (pipeline_id.0, pr.text()),
    ).expect("pending delete");
    tx.commit().expect("pending commit");
    row
}

/// Relies on `rusqlite::Statement::query_map`: the pending rows of the
/// pipeline are read; the UNIQUE constraint of the schema keeps them one
/// per pull request; nothing moves.
#[verifier::external_body]
fn sql_list_pending(db: &mut SqliteDb, pipeline_id: PipelineId) -> (r: Vec<PendingEntry>)
    ensures
        forall|i: int|
            0 <= i < r@.len() ==> sqlite_pending(final(db).conn, pipeline_id@).contains_pair(
                #[trigger] r@[i].pr@,
                r@[i].commit@,
            ),
        forall|k: Seq<char>|
            sqlite_pending(final(db).conn, pipeline_id@).dom().contains(k) ==> exists|i: int|
                0 <= i < r@.len() && #[trigger] r@[i].pr@ == k,
        forall|i: int, j: int|
            #![trigger r@[i].pr@, r@[j].pr@]
            0 <= i < j < r@.len() ==> r@[i].pr@ != r@[j].pr@,
        sqlite_queue(final(db).conn, pipeline_id@) == sqlite_queue(old(db).conn, pipeline_id@),
        sqlite_running(final(db).conn, pipeline_id@) == sqlite_running(old(db).conn, pipeline_id@),
        sqlite_pending(final(db).conn, pipeline_id@) == sqlite_pending(old(db).conn, pipeline_id@),
        SqliteDb::others_same(old(db), final(db), pipeline_id@),
{
    let mut stmt = db.conn.prepare(
        "SELECT pr, pull_commit FROM pending WHERE pipeline_id = ?1",
    ).expect("pending list");
    let rows = stmt.query_map((pipeline_id.0,), |r| {
        Ok(PendingEntry { pr: Pr::new(r.get(0)?), commit: Commit::new(r.get(1)?) })
    }).expect("pending rows");
    rows.collect::<Result<Vec<PendingEntry>, _>>().expect("pending row")
}

/// Relies on `rusqlite::Connection::transaction` and `execute`: one UPDATE
/// tags the running row of the pull request as canceled, one DELETE evicts
/// its queue rows, in one transaction.
#[verifier::external_body]
fn sql_cancel_by_pr(db: &mut SqliteDb, pipeline_id: PipelineId, pr: &Pr)
    ensures
        sqlite_queue(final(db).conn, pipeline_id@) == crate::db::queue_without(
            sqlite_queue(old(db).conn, pipeline_id@),
            pr@,
        ),
        sqlite_running(final(db).conn, pipeline_id@) == crate::db::running_canceled(
            sqlite_running(old(db).conn, pipeline_id@),
            pr@,
        ),
        sqlite_pending(final(db).conn, pipeline_id@) == sqlite_pending(old(db).conn, pipeline_id@),
        SqliteDb::others_same(old(db), final(db), pipeline_id@),
{
    let tx = db.conn.transaction().expect("cancel transaction");
    tx.execute(
        "UPDATE running SET canceled = 1 WHERE pipeline_id = ?1 AND pr = ?2",
        (pipeline_id.0, pr.text()),
    ).expect("cancel running");
    tx.execute(
        "DELETE FROM queue WHERE pipeline_id = ?1 AND pr = ?2",
        (pipeline_id.0, pr.text()),
    ).expect("cancel queue");
    tx.commit().expect("cancel commit");
}

/// Relies on `rusqlite::Connection::transaction` and `execute`: as
/// `sql_cancel_by_pr`, but both statements spare the exact commit, and the
/// affected-row counts say whether anything was touched.
#[verifier::external_body]
fn sql_cancel_by_pr_different_commit(
    db: &mut SqliteDb,
    pipeline_id: PipelineId,
    pr: &Pr,
    commit: &Commit,
) -> (b: bool)
    ensures
        sqlite_queue(final(db).conn, pipeline_id@) == crate::db::queue_without_stale(
            sqlite_queue(old(db).conn, pipeline_id@),
            pr@,
            commit@,
        ),
        sqlite_running(final(db).conn, pipeline_id@) == crate::db::running_canceled_stale(
            sqlite_running(old(db).conn, pipeline_id@),
            pr@,
            commit@,
        ),
        sqlite_pending(final(db).conn, pipeline_id@) == sqlite_pending(old(db).conn, pipeline_id@),
        b == crate::db::stale_cancel_affects(
            sqlite_queue(old(db).conn, pipeline_id@),
            sqlite_running(old(db).conn, pipeline_id@),
            pr@,
            commit@,
        ),
        SqliteDb::others_same(old(db), final(db), pipeline_id@),
{
    let tx = db.conn.transaction().expect("cancel transaction");
    let nr = tx.execute(
        "UPDATE running SET canceled = 1 WHERE pipeline_id = ?1 AND pr = ?2 AND pull_commit <> ?3",
        (pipeline_id.0, pr.text(), commit.text()),
    ).expect("cancel running");
    let nq = tx.execute(
        "DELETE FROM queue WHERE pipeline_id = ?1 AND pr = ?2 AND pull_commit <> ?3",
        (pipeline_id.0, pr.text(), commit.text()),
    ).expect("cancel queue");
    tx.commit().expect("cancel commit");
    nq != 0 || nr != 0
}

/// Rebuild a running entry from its row.
fn running_entry_from_row(t: (String, String, Option<String>, String, bool, bool)) -> (r:
    RunningEntry)
    ensures
        r@ == (RunningEntryV {
            pr: t.0@,
            pull_commit: t.1@,
            merge_commit: match t.2 {
                Some(s) => Some(s@),
                None => None,
            },
            message: t.3@,
            canceled: t.4,
            built: t.5,
        }),
{
    RunningEntry {
        pr: Pr::new(t.0),
        pull_commit: Commit::new(t.1),
        merge_commit: match t.2 {
            Some(s) => Some(Commit::new(s)),
            None => None,
        },
        message: t.3,
        canceled: t.4,
        built: t.5,
    }
}

} // verus!
