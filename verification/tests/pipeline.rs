//! Engine tests: every inbound event against an in-memory store, with
//! recording collaborators.

use std::cell::RefCell;

use aelita::ci;
use aelita::db::{Db, MemoryDb, QueueEntry, RunningEntry};
use aelita::pipeline::{Ci, Event, Pipeline, PipelineId, Ui, Vcs};
use aelita::ui;
use aelita::ui::{Pr, Status};
use aelita::vcs;
use aelita::vcs::Commit;

fn commit(s: &str) -> Commit {
    Commit::new(s.to_string())
}

fn pr(s: &str) -> Pr {
    Pr::new(s.to_string())
}

struct MemoryUi {
    results: RefCell<Vec<(Pr, Status)>>,
}

impl MemoryUi {
    fn new() -> MemoryUi {
        MemoryUi { results: RefCell::new(Vec::new()) }
    }
}

impl Ui for &MemoryUi {
    fn send_result(&self, _: PipelineId, pr: Pr, status: Status) {
        self.results.borrow_mut().push((pr, status));
    }
}

struct MemoryVcs {
    staging: RefCell<Option<Commit>>,
    master: RefCell<Option<Commit>>,
}

impl MemoryVcs {
    fn new() -> MemoryVcs {
        MemoryVcs { staging: RefCell::new(None), master: RefCell::new(None) }
    }
    fn staging(&self) -> Option<Commit> {
        self.staging.borrow().clone()
    }
    fn master(&self) -> Option<Commit> {
        self.master.borrow().clone()
    }
}

impl Vcs for &MemoryVcs {
    fn merge_to_staging(&self, _: PipelineId, pull_commit: Commit, _message: String, _remote: String) {
        *self.staging.borrow_mut() = Some(pull_commit);
    }
    fn move_staging_to_master(&self, _: PipelineId, commit: Commit) {
        *self.master.borrow_mut() = Some(commit);
    }
}

struct MemoryCi {
    build: RefCell<Option<Commit>>,
}

impl MemoryCi {
    fn new() -> MemoryCi {
        MemoryCi { build: RefCell::new(None) }
    }
    fn build(&self) -> Option<Commit> {
        self.build.borrow().clone()
    }
}

impl Ci for &MemoryCi {
    fn start_build(&self, _: PipelineId, commit: Commit) {
        *self.build.borrow_mut() = Some(commit);
    }
}

fn handle_event(ui: &MemoryUi, vcs: &MemoryVcs, ci: &MemoryCi, db: &mut MemoryDb, event: Event) {
    let mut pipeline = Pipeline::new(PipelineId(0), ci, ui, vcs);
    pipeline.handle_event(db, event);
}

fn running_of(db: &mut MemoryDb) -> Option<RunningEntry> {
    db.peek_running(PipelineId(0))
}

fn queue_of(db: &mut MemoryDb) -> Vec<QueueEntry> {
    db.list_queue(PipelineId(0))
}

#[test]
fn handle_add_to_queue() {
    let ui = MemoryUi::new();
    let vcs = MemoryVcs::new();
    let ci = MemoryCi::new();
    let mut db = MemoryDb::new();
    handle_event(
        &ui,
        &vcs,
        &ci,
        &mut db,
        Event::UiEvent(ui::Event::Approved(
            PipelineId(0),
            pr("A"),
            Some(commit("A")),
            "Message!".to_owned(),
        )),
    );
    assert_eq!(running_of(&mut db).unwrap().pull_commit, commit("A"));
    assert!(queue_of(&mut db).is_empty());
    assert_eq!(vcs.staging().unwrap(), commit("A"));
}

#[test]
fn handle_add_to_queue_by_pending_none() {
    let ui = MemoryUi::new();
    let vcs = MemoryVcs::new();
    let ci = MemoryCi::new();
    let mut db = MemoryDb::new();
    handle_event(
        &ui,
        &vcs,
        &ci,
        &mut db,
        Event::UiEvent(ui::Event::Approved(
            PipelineId(0),
            pr("A"),
            None,
            "Message!".to_owned(),
        )),
    );
    assert!(running_of(&mut db).is_none());
    assert!(queue_of(&mut db).is_empty());
    assert!(vcs.staging().is_none());
    assert_eq!(ui.results.borrow()[0].1, Status::NoCommit);
}

#[test]
fn handle_add_to_queue_by_pending_some() {
    let ui = MemoryUi::new();
    let vcs = MemoryVcs::new();
    let ci = MemoryCi::new();
    let mut db = MemoryDb::new();
    handle_event(
        &ui,
        &vcs,
        &ci,
        &mut db,
        Event::UiEvent(ui::Event::Opened(PipelineId(0), pr("A"), commit("A"))),
    );
    handle_event(
        &ui,
        &vcs,
        &ci,
        &mut db,
        Event::UiEvent(ui::Event::Approved(
            PipelineId(0),
            pr("A"),
            None,
            "Message!".to_owned(),
        )),
    );
    assert_eq!(running_of(&mut db).unwrap().pull_commit, commit("A"));
    assert!(queue_of(&mut db).is_empty());
    assert_eq!(vcs.staging().unwrap(), commit("A"));
}

#[test]
fn handle_add_to_queue_by_pending_changed() {
    let ui = MemoryUi::new();
    let vcs = MemoryVcs::new();
    let ci = MemoryCi::new();
    let mut db = MemoryDb::new();
    handle_event(
        &ui,
        &vcs,
        &ci,
        &mut db,
        Event::UiEvent(ui::Event::Opened(PipelineId(0), pr("A"), commit("A"))),
    );
    handle_event(
        &ui,
        &vcs,
        &ci,
        &mut db,
        Event::UiEvent(ui::Event::Changed(PipelineId(0), pr("A"), commit("B"))),
    );
    handle_event(
        &ui,
        &vcs,
        &ci,
        &mut db,
        Event::UiEvent(ui::Event::Approved(
            PipelineId(0),
            pr("A"),
            None,
            "Message!".to_owned(),
        )),
    );
    assert_eq!(running_of(&mut db).unwrap().pull_commit, commit("B"));
    assert!(queue_of(&mut db).is_empty());
    assert_eq!(vcs.staging().unwrap(), commit("B"));
}

#[test]
fn handle_add_two_to_queue() {
    let ui = MemoryUi::new();
    let vcs = MemoryVcs::new();
    let ci = MemoryCi::new();
    let mut db = MemoryDb::new();
    handle_event(
        &ui,
        &vcs,
        &ci,
        &mut db,
        Event::UiEvent(ui::Event::Approved(
            PipelineId(0),
            pr("A"),
            Some(commit("A")),
            "Message!".to_owned(),
        )),
    );
    handle_event(
        &ui,
        &vcs,
        &ci,
        &mut db,
        Event::UiEvent(ui::Event::Approved(
            PipelineId(0),
            pr("B"),
            Some(commit("B")),
            "Message!".to_owned(),
        )),
    );
    assert!(!running_of(&mut db).unwrap().canceled);
    assert_eq!(running_of(&mut db).unwrap().pull_commit, commit("A"));
    assert_eq!(queue_of(&mut db)[0].commit, commit("B"));
    assert_eq!(vcs.staging().unwrap(), commit("A"));
}

#[test]
fn handle_add_two_same_pr_to_queue() {
    let ui = MemoryUi::new();
    let vcs = MemoryVcs::new();
    let ci = MemoryCi::new();
    let mut db = MemoryDb::new();
    handle_event(
        &ui,
        &vcs,
        &ci,
        &mut db,
        Event::UiEvent(ui::Event::Approved(
            PipelineId(0),
            pr("A"),
            Some(commit("A")),
            "Message!".to_owned(),
        )),
    );
    handle_event(
        &ui,
        &vcs,
        &ci,
        &mut db,
        Event::UiEvent(ui::Event::Approved(
            PipelineId(0),
            pr("A"),
            Some(commit("B")),
            "Message!".to_owned(),
        )),
    );
    assert!(running_of(&mut db).unwrap().canceled);
    assert_eq!(running_of(&mut db).unwrap().pull_commit, commit("A"));
    assert_eq!(queue_of(&mut db)[0].commit, commit("B"));
    assert_eq!(vcs.staging().unwrap(), commit("A"));
}

#[test]
fn handle_add_three_same_pr_to_queue() {
    let ui = MemoryUi::new();
    let vcs = MemoryVcs::new();
    let ci = MemoryCi::new();
    let mut db = MemoryDb::new();
    handle_event(
        &ui,
        &vcs,
        &ci,
        &mut db,
        Event::UiEvent(ui::Event::Approved(
            PipelineId(0),
            pr("A"),
            Some(commit("A")),
            "Message!".to_owned(),
        )),
    );
    handle_event(
        &ui,
        &vcs,
        &ci,
        &mut db,
        Event::UiEvent(ui::Event::Approved(
            PipelineId(0),
            pr("A"),
            Some(commit("B")),
            "Message!".to_owned(),
        )),
    );
    handle_event(
        &ui,
        &vcs,
        &ci,
        &mut db,
        Event::UiEvent(ui::Event::Approved(
            PipelineId(0),
            pr("A"),
            Some(commit("C")),
            "Message!".to_owned(),
        )),
    );
    assert!(running_of(&mut db).unwrap().canceled);
    assert_eq!(running_of(&mut db).unwrap().pull_commit, commit("A"));
    assert_eq!(queue_of(&mut db)[0].commit, commit("C"));
    assert_eq!(vcs.staging().unwrap(), commit("A"));
}

#[test]
fn handle_merge_failed_notify_user() {
    let ui = MemoryUi::new();
    let vcs = MemoryVcs::new();
    let ci = MemoryCi::new();
    let mut db = MemoryDb::new();
    db.put_running(
        PipelineId(0),
        RunningEntry {
            pull_commit: commit("A"),
            merge_commit: None,
            pr: pr("A"),
            message: "MSG!".to_owned(),
            canceled: false,
            built: false,
        },
    );
    handle_event(
        &ui,
        &vcs,
        &ci,
        &mut db,
        Event::VcsEvent(vcs::Event::FailedMergeToStaging(PipelineId(0), commit("A"))),
    );
    assert!(running_of(&mut db).is_none());
    assert!(queue_of(&mut db).is_empty());
    assert!(ci.build().is_none());
    assert!(vcs.master().is_none());
    assert_eq!(
        *ui.results.borrow(),
        vec![(pr("A"), Status::Unmergeable(commit("A")))]
    );
}

#[test]
fn handle_merge_failed_notify_user_merge_next_commit() {
    let ui = MemoryUi::new();
    let vcs = MemoryVcs::new();
    let ci = MemoryCi::new();
    let mut db = MemoryDb::new();
    db.put_running(
        PipelineId(0),
        RunningEntry {
            pull_commit: commit("A"),
            merge_commit: None,
            pr: pr("A"),
            message: "MSG!".to_owned(),
            canceled: false,
            built: false,
        },
    );
    db.push_queue(
        PipelineId(0),
        QueueEntry { commit: commit("C"), pr: pr("B"), message: "M!".to_owned() },
    );
    handle_event(
        &ui,
        &vcs,
        &ci,
        &mut db,
        Event::VcsEvent(vcs::Event::FailedMergeToStaging(PipelineId(0), commit("A"))),
    );
    assert_eq!(
        running_of(&mut db).unwrap(),
        RunningEntry {
            pull_commit: commit("C"),
            merge_commit: None,
            pr: pr("B"),
            message: "M!".to_owned(),
            canceled: false,
            built: false,
        }
    );
    assert!(queue_of(&mut db).is_empty());
    assert!(ci.build().is_none());
    assert!(vcs.master().is_none());
    assert_eq!(vcs.staging().unwrap(), commit("C"));
    assert_eq!(
        *ui.results.borrow(),
        vec![(pr("A"), Status::Unmergeable(commit("A")))]
    );
}

#[test]
fn handle_merge_succeeded_notify_user_start_ci() {
    let ui = MemoryUi::new();
    let vcs = MemoryVcs::new();
    let ci = MemoryCi::new();
    let mut db = MemoryDb::new();
    db.put_running(
        PipelineId(0),
        RunningEntry {
            pull_commit: commit("A"),
            merge_commit: None,
            pr: pr("A"),
            message: "MSG!".to_owned(),
            canceled: false,
            built: false,
        },
    );
    *vcs.staging.borrow_mut() = Some(commit("B"));
    handle_event(
        &ui,
        &vcs,
        &ci,
        &mut db,
        Event::VcsEvent(vcs::Event::MergedToStaging(
            PipelineId(0),
            commit("A"),
            commit("B"),
        )),
    );
    assert_eq!(
        running_of(&mut db).unwrap(),
        RunningEntry {
            pull_commit: commit("A"),
            merge_commit: Some(commit("B")),
            pr: pr("A"),
            message: "MSG!".to_owned(),
            canceled: false,
            built: false,
        }
    );
    assert!(queue_of(&mut db).is_empty());
    assert_eq!(ci.build().unwrap(), commit("B"));
    assert!(vcs.master().is_none());
    assert_eq!(vcs.staging().unwrap(), commit("B"));
    assert_eq!(
        *ui.results.borrow(),
        vec![(pr("A"), Status::StartingBuild(commit("A"), commit("B")))]
    );
}

#[test]
fn handle_ci_failed_notify_user() {
    let ui = MemoryUi::new();
    let vcs = MemoryVcs::new();
    let ci = MemoryCi::new();
    let mut db = MemoryDb::new();
    db.put_running(
        PipelineId(0),
        RunningEntry {
            pull_commit: commit("A"),
            merge_commit: Some(commit("B")),
            pr: pr("A"),
            message: "MSG!".to_owned(),
            canceled: false,
            built: false,
        },
    );
    *vcs.staging.borrow_mut() = Some(commit("B"));
    handle_event(
        &ui,
        &vcs,
        &ci,
        &mut db,
        Event::CiEvent(ci::Event::BuildFailed(PipelineId(0), commit("B"), None)),
    );
    assert!(running_of(&mut db).is_none());
    assert!(queue_of(&mut db).is_empty());
    assert!(vcs.master().is_none());
    assert_eq!(vcs.staging().unwrap(), commit("B"));
    assert_eq!(
        *ui.results.borrow(),
        vec![(pr("A"), Status::Failure(commit("A"), commit("B"), None))]
    );
}

#[test]
fn handle_ci_failed_notify_user_next_commit() {
    let ui = MemoryUi::new();
    let vcs = MemoryVcs::new();
    let ci = MemoryCi::new();
    let mut db = MemoryDb::new();
    db.put_running(
        PipelineId(0),
        RunningEntry {
            pull_commit: commit("A"),
            merge_commit: Some(commit("B")),
            pr: pr("A"),
            message: "MSG!".to_owned(),
            canceled: false,
            built: false,
        },
    );
    db.push_queue(
        PipelineId(0),
        QueueEntry { commit: commit("C"), pr: pr("B"), message: "M!".to_owned() },
    );
    *vcs.staging.borrow_mut() = Some(commit("B"));
    handle_event(
        &ui,
        &vcs,
        &ci,
        &mut db,
        Event::CiEvent(ci::Event::BuildFailed(PipelineId(0), commit("B"), None)),
    );
    assert_eq!(
        running_of(&mut db).unwrap(),
        RunningEntry {
            pull_commit: commit("C"),
            merge_commit: None,
            pr: pr("B"),
            message: "M!".to_owned(),
            canceled: false,
            built: false,
        }
    );
    assert!(queue_of(&mut db).is_empty());
    assert!(vcs.master().is_none());
    assert_eq!(vcs.staging().unwrap(), commit("C"));
    assert_eq!(
        *ui.results.borrow(),
        vec![(pr("A"), Status::Failure(commit("A"), commit("B"), None))]
    );
}

#[test]
fn handle_ci_started_notify_user() {
    let ui = MemoryUi::new();
    let vcs = MemoryVcs::new();
    let ci = MemoryCi::new();
    let mut db = MemoryDb::new();
    db.put_running(
        PipelineId(0),
        RunningEntry {
            pull_commit: commit("A"),
            merge_commit: Some(commit("B")),
            pr: pr("A"),
            canceled: false,
            message: "MSG!".to_owned(),
            built: false,
        },
    );
    *vcs.staging.borrow_mut() = Some(commit("B"));
    handle_event(
        &ui,
        &vcs,
        &ci,
        &mut db,
        Event::CiEvent(ci::Event::BuildStarted(
            PipelineId(0),
            commit("B"),
            Some("http://example.com/".to_string()),
        )),
    );
    assert!(running_of(&mut db).is_some());
    assert!(queue_of(&mut db).is_empty());
    assert_eq!(
        *ui.results.borrow(),
        vec![(
            pr("A"),
            Status::Testing(
                commit("A"),
                commit("B"),
                Some("http://example.com/".to_string()),
            )
        )]
    );
}

#[test]
fn handle_ci_succeeded_move_to_master() {
    let ui = MemoryUi::new();
    let vcs = MemoryVcs::new();
    let ci = MemoryCi::new();
    let mut db = MemoryDb::new();
    db.put_running(
        PipelineId(0),
        RunningEntry {
            pull_commit: commit("A"),
            merge_commit: Some(commit("B")),
            pr: pr("A"),
            canceled: false,
            message: "MSG!".to_owned(),
            built: false,
        },
    );
    *vcs.staging.borrow_mut() = Some(commit("B"));
    handle_event(
        &ui,
        &vcs,
        &ci,
        &mut db,
        Event::CiEvent(ci::Event::BuildSucceeded(PipelineId(0), commit("B"), None)),
    );
    assert!(running_of(&mut db).is_some());
    assert!(queue_of(&mut db).is_empty());
    assert_eq!(vcs.master().unwrap(), commit("B"));
    assert_eq!(
        *ui.results.borrow(),
        vec![(pr("A"), Status::Success(commit("A"), commit("B"), None))]
    );
}

#[test]
fn handle_ci_double_succeeded_move_to_master() {
    let ui = MemoryUi::new();
    let vcs = MemoryVcs::new();
    let ci = MemoryCi::new();
    let mut db = MemoryDb::new();
    db.put_running(
        PipelineId(0),
        RunningEntry {
            pull_commit: commit("A"),
            merge_commit: Some(commit("B")),
            pr: pr("A"),
            canceled: false,
            message: "MSG!".to_owned(),
            built: false,
        },
    );
    *vcs.staging.borrow_mut() = Some(commit("B"));
    handle_event(
        &ui,
        &vcs,
        &ci,
        &mut db,
        Event::CiEvent(ci::Event::BuildSucceeded(PipelineId(0), commit("B"), None)),
    );
    assert!(running_of(&mut db).is_some());
    assert!(queue_of(&mut db).is_empty());
    assert_eq!(vcs.master().unwrap(), commit("B"));
    assert_eq!(
        *ui.results.borrow(),
        vec![(pr("A"), Status::Success(commit("A"), commit("B"), None))]
    );
    handle_event(
        &ui,
        &vcs,
        &ci,
        &mut db,
        Event::CiEvent(ci::Event::BuildSucceeded(PipelineId(0), commit("B"), None)),
    );
    assert!(running_of(&mut db).is_some());
    assert!(queue_of(&mut db).is_empty());
    assert_eq!(vcs.master().unwrap(), commit("B"));
    assert_eq!(
        *ui.results.borrow(),
        vec![(pr("A"), Status::Success(commit("A"), commit("B"), None))]
    );
}

#[test]
fn handle_move_failed_notify_user() {
    let ui = MemoryUi::new();
    let vcs = MemoryVcs::new();
    let ci = MemoryCi::new();
    let mut db = MemoryDb::new();
    db.put_running(
        PipelineId(0),
        RunningEntry {
            pull_commit: commit("A"),
            merge_commit: Some(commit("B")),
            pr: pr("A"),
            canceled: false,
            message: "MSG!".to_owned(),
            built: true,
        },
    );
    *vcs.staging.borrow_mut() = Some(commit("B"));
    handle_event(
        &ui,
        &vcs,
        &ci,
        &mut db,
        Event::VcsEvent(vcs::Event::FailedMoveToMaster(PipelineId(0), commit("B"))),
    );
    assert!(running_of(&mut db).is_none());
    assert!(queue_of(&mut db).is_empty());
    assert!(vcs.master().is_none());
    assert_eq!(vcs.staging().unwrap(), commit("B"));
    assert_eq!(
        *ui.results.borrow(),
        vec![(pr("A"), Status::Unmoveable(commit("A"), commit("B")))]
    );
}

#[test]
fn handle_move_failed_notify_user_next_commit() {
    let ui = MemoryUi::new();
    let vcs = MemoryVcs::new();
    let ci = MemoryCi::new();
    let mut db = MemoryDb::new();
    db.put_running(
        PipelineId(0),
        RunningEntry {
            pull_commit: commit("A"),
            merge_commit: Some(commit("B")),
            pr: pr("A"),
            canceled: false,
            message: "MSG!".to_owned(),
            built: true,
        },
    );
    db.push_queue(
        PipelineId(0),
        QueueEntry { commit: commit("C"), pr: pr("B"), message: "M!".to_owned() },
    );
    *vcs.staging.borrow_mut() = Some(commit("B"));
    handle_event(
        &ui,
        &vcs,
        &ci,
        &mut db,
        Event::VcsEvent(vcs::Event::FailedMoveToMaster(PipelineId(0), commit("B"))),
    );
    assert_eq!(
        running_of(&mut db).unwrap(),
        RunningEntry {
            pull_commit: commit("C"),
            merge_commit: None,
            pr: pr("B"),
            message: "M!".to_owned(),
            canceled: false,
            built: false,
        }
    );
    assert!(queue_of(&mut db).is_empty());
    assert!(vcs.master().is_none());
    assert_eq!(vcs.staging().unwrap(), commit("C"));
    assert_eq!(
        *ui.results.borrow(),
        vec![(pr("A"), Status::Unmoveable(commit("A"), commit("B")))]
    );
}

#[test]
fn handle_move_succeeded_notify_user() {
    let ui = MemoryUi::new();
    let vcs = MemoryVcs::new();
    let ci = MemoryCi::new();
    let mut db = MemoryDb::new();
    db.put_running(
        PipelineId(0),
        RunningEntry {
            pull_commit: commit("A"),
            merge_commit: Some(commit("B")),
            pr: pr("A"),
            message: "MSG!".to_owned(),
            canceled: false,
            built: true,
        },
    );
    *vcs.staging.borrow_mut() = Some(commit("B"));
    handle_event(
        &ui,
        &vcs,
        &ci,
        &mut db,
        Event::VcsEvent(vcs::Event::MovedToMaster(PipelineId(0), commit("B"))),
    );
    assert!(running_of(&mut db).is_none());
    assert!(queue_of(&mut db).is_empty());
    assert!(vcs.master().is_none());
    assert_eq!(
        *ui.results.borrow(),
        vec![(pr("A"), Status::Completed(commit("A"), commit("B")))]
    );
}

#[test]
fn handle_move_succeeded_notify_user_next_commit() {
    let ui = MemoryUi::new();
    let vcs = MemoryVcs::new();
    let ci = MemoryCi::new();
    let mut db = MemoryDb::new();
    db.put_running(
        PipelineId(0),
        RunningEntry {
            pull_commit: commit("A"),
            merge_commit: Some(commit("B")),
            pr: pr("A"),
            message: "MSG!".to_owned(),
            canceled: false,
            built: true,
        },
    );
    db.push_queue(
        PipelineId(0),
        QueueEntry { commit: commit("C"), pr: pr("B"), message: "M!".to_owned() },
    );
    *vcs.staging.borrow_mut() = Some(commit("B"));
    handle_event(
        &ui,
        &vcs,
        &ci,
        &mut db,
        Event::VcsEvent(vcs::Event::MovedToMaster(PipelineId(0), commit("B"))),
    );
    assert_eq!(
        running_of(&mut db).unwrap(),
        RunningEntry {
            pull_commit: commit("C"),
            merge_commit: None,
            pr: pr("B"),
            message: "M!".to_owned(),
            canceled: false,
            built: false,
        }
    );
    assert!(queue_of(&mut db).is_empty());
    assert!(vcs.master().is_none());
    assert_eq!(vcs.staging().unwrap(), commit("C"));
    assert_eq!(
        *ui.results.borrow(),
        vec![(pr("A"), Status::Completed(commit("A"), commit("B")))]
    );
}

#[test]
fn handle_ui_cancel() {
    let ui = MemoryUi::new();
    let vcs = MemoryVcs::new();
    let ci = MemoryCi::new();
    let mut db = MemoryDb::new();
    db.put_running(
        PipelineId(0),
        RunningEntry {
            pull_commit: commit("A"),
            merge_commit: Some(commit("B")),
            pr: pr("A"),
            message: "MSG!".to_owned(),
            canceled: false,
            built: false,
        },
    );
    handle_event(
        &ui,
        &vcs,
        &ci,
        &mut db,
        Event::UiEvent(ui::Event::Canceled(PipelineId(0), pr("A"))),
    );
    assert_eq!(
        running_of(&mut db).unwrap(),
        RunningEntry {
            pull_commit: commit("A"),
            merge_commit: Some(commit("B")),
            pr: pr("A"),
            canceled: true,
            built: false,
            message: "MSG!".to_owned(),
        }
    );
}

#[test]
fn handle_ui_changed_cancel() {
    let ui = MemoryUi::new();
    let vcs = MemoryVcs::new();
    let ci = MemoryCi::new();
    let mut db = MemoryDb::new();
    db.put_running(
        PipelineId(0),
        RunningEntry {
            pull_commit: commit("A"),
            merge_commit: Some(commit("B")),
            pr: pr("A"),
            message: "MSG!".to_owned(),
            canceled: false,
            built: false,
        },
    );
    handle_event(
        &ui,
        &vcs,
        &ci,
        &mut db,
        Event::UiEvent(ui::Event::Changed(PipelineId(0), pr("A"), commit("C"))),
    );
    assert_eq!(
        running_of(&mut db).unwrap(),
        RunningEntry {
            pull_commit: commit("A"),
            merge_commit: Some(commit("B")),
            pr: pr("A"),
            canceled: true,
            built: false,
            message: "MSG!".to_owned(),
        }
    );
}

#[test]
fn handle_ui_changed_no_real_change() {
    let ui = MemoryUi::new();
    let vcs = MemoryVcs::new();
    let ci = MemoryCi::new();
    let mut db = MemoryDb::new();
    db.put_running(
        PipelineId(0),
        RunningEntry {
            pull_commit: commit("A"),
            merge_commit: Some(commit("B")),
            pr: pr("A"),
            message: "MSG!".to_owned(),
            canceled: false,
            built: false,
        },
    );
    handle_event(
        &ui,
        &vcs,
        &ci,
        &mut db,
        Event::UiEvent(ui::Event::Changed(PipelineId(0), pr("A"), commit("A"))),
    );
    assert_eq!(
        running_of(&mut db).unwrap(),
        RunningEntry {
            pull_commit: commit("A"),
            merge_commit: Some(commit("B")),
            pr: pr("A"),
            canceled: false,
            built: false,
            message: "MSG!".to_owned(),
        }
    );
}

#[test]
fn handle_ui_changed_cancel_queue() {
    let ui = MemoryUi::new();
    let vcs = MemoryVcs::new();
    let ci = MemoryCi::new();
    let mut db = MemoryDb::new();
    db.put_running(
        PipelineId(0),
        RunningEntry {
            pull_commit: commit("A"),
            merge_commit: Some(commit("B")),
            pr: pr("A"),
            message: "MSG!".to_owned(),
            canceled: false,
            built: false,
        },
    );
    db.push_queue(
        PipelineId(0),
        QueueEntry { commit: commit("C"), pr: pr("B"), message: "MSG!".to_owned() },
    );
    handle_event(
        &ui,
        &vcs,
        &ci,
        &mut db,
        Event::UiEvent(ui::Event::Changed(PipelineId(0), pr("B"), commit("D"))),
    );
    assert_eq!(
        running_of(&mut db).unwrap(),
        RunningEntry {
            pull_commit: commit("A"),
            merge_commit: Some(commit("B")),
            pr: pr("A"),
            canceled: false,
            built: false,
            message: "MSG!".to_owned(),
        }
    );
    assert!(queue_of(&mut db).is_empty());
}

#[test]
fn handle_ui_changed_no_real_change_queue() {
    let ui = MemoryUi::new();
    let vcs = MemoryVcs::new();
    let ci = MemoryCi::new();
    let mut db = MemoryDb::new();
    db.put_running(
        PipelineId(0),
        RunningEntry {
            pull_commit: commit("A"),
            merge_commit: Some(commit("B")),
            pr: pr("A"),
            message: "MSG!".to_owned(),
            canceled: false,
            built: false,
        },
    );
    db.push_queue(
        PipelineId(0),
        QueueEntry { commit: commit("C"), pr: pr("B"), message: "MSG!".to_owned() },
    );
    handle_event(
        &ui,
        &vcs,
        &ci,
        &mut db,
        Event::UiEvent(ui::Event::Changed(PipelineId(0), pr("B"), commit("C"))),
    );
    assert_eq!(
        running_of(&mut db).unwrap(),
        RunningEntry {
            pull_commit: commit("A"),
            merge_commit: Some(commit("B")),
            pr: pr("A"),
            canceled: false,
            built: false,
            message: "MSG!".to_owned(),
        }
    );
    assert_eq!(
        queue_of(&mut db)[0],
        QueueEntry { commit: commit("C"), pr: pr("B"), message: "MSG!".to_owned() }
    );
}

#[test]
fn handle_ui_closed() {
    let ui = MemoryUi::new();
    let vcs = MemoryVcs::new();
    let ci = MemoryCi::new();
    let mut db = MemoryDb::new();
    db.put_running(
        PipelineId(0),
        RunningEntry {
            pull_commit: commit("A"),
            merge_commit: Some(commit("B")),
            pr: pr("A"),
            message: "MSG!".to_owned(),
            canceled: false,
            built: false,
        },
    );
    handle_event(
        &ui,
        &vcs,
        &ci,
        &mut db,
        Event::UiEvent(ui::Event::Closed(PipelineId(0), pr("A"))),
    );
    assert_eq!(
        running_of(&mut db).unwrap(),
        RunningEntry {
            pull_commit: commit("A"),
            merge_commit: Some(commit("B")),
            pr: pr("A"),
            canceled: true,
            built: false,
            message: "MSG!".to_owned(),
        }
    );
}

#[test]
fn handle_runthrough() {
    let ui = MemoryUi::new();
    let vcs = MemoryVcs::new();
    let ci = MemoryCi::new();
    let mut db = MemoryDb::new();
    handle_event(
        &ui,
        &vcs,
        &ci,
        &mut db,
        Event::UiEvent(ui::Event::Approved(
            PipelineId(0),
            pr("A"),
            Some(commit("A")),
            "Message!".to_owned(),
        )),
    );
    assert_eq!(vcs.staging(), Some(commit("A")));
    assert!(vcs.master().is_none());
    assert!(ci.build().is_none());
    assert!(ui.results.borrow().is_empty());
    *vcs.staging.borrow_mut() = Some(commit("B"));
    handle_event(
        &ui,
        &vcs,
        &ci,
        &mut db,
        Event::VcsEvent(vcs::Event::MergedToStaging(
            PipelineId(0),
            commit("A"),
            commit("B"),
        )),
    );
    assert_eq!(
        running_of(&mut db),
        Some(RunningEntry {
            pull_commit: commit("A"),
            merge_commit: Some(commit("B")),
            pr: pr("A"),
            canceled: false,
            built: false,
            message: "Message!".to_owned(),
        })
    );
    assert!(queue_of(&mut db).is_empty());
    assert_eq!(vcs.staging(), Some(commit("B")));
    assert!(vcs.master().is_none());
    assert_eq!(ci.build(), Some(commit("B")));
    assert_eq!(
        *ui.results.borrow(),
        vec![(pr("A"), Status::StartingBuild(commit("A"), commit("B")))]
    );
    handle_event(
        &ui,
        &vcs,
        &ci,
        &mut db,
        Event::CiEvent(ci::Event::BuildSucceeded(PipelineId(0), commit("B"), None)),
    );
    assert_eq!(vcs.staging(), Some(commit("B")));
    assert_eq!(vcs.master(), Some(commit("B")));
    assert_eq!(
        *ui.results.borrow(),
        vec![
            (pr("A"), Status::StartingBuild(commit("A"), commit("B"))),
            (pr("A"), Status::Success(commit("A"), commit("B"), None)),
        ]
    );
    handle_event(
        &ui,
        &vcs,
        &ci,
        &mut db,
        Event::VcsEvent(vcs::Event::MovedToMaster(PipelineId(0), commit("B"))),
    );
    assert_eq!(vcs.staging(), Some(commit("B")));
    assert_eq!(vcs.master(), Some(commit("B")));
    assert_eq!(
        *ui.results.borrow(),
        vec![
            (pr("A"), Status::StartingBuild(commit("A"), commit("B"))),
            (pr("A"), Status::Success(commit("A"), commit("B"), None)),
            (pr("A"), Status::Completed(commit("A"), commit("B"))),
        ]
    );
}

#[test]
fn handle_runthrough_next_commit() {
    let ui = MemoryUi::new();
    let vcs = MemoryVcs::new();
    let ci = MemoryCi::new();
    let mut db = MemoryDb::new();
    // Add a first item to the queue. This one should be built first.
    handle_event(
        &ui,
        &vcs,
        &ci,
        &mut db,
        Event::UiEvent(ui::Event::Approved(
            PipelineId(0),
            pr("A"),
            Some(commit("A")),
            "MSG!".to_owned(),
        )),
    );
    assert_eq!(
        running_of(&mut db),
        Some(RunningEntry {
            pull_commit: commit("A"),
            merge_commit: None,
            pr: pr("A"),
            canceled: false,
            built: false,
            message: "MSG!".to_owned(),
        })
    );
    assert_eq!(vcs.staging(), Some(commit("A")));
    assert!(vcs.master().is_none());
    assert!(ci.build().is_none());
    assert!(ui.results.borrow().is_empty());
    // Add a second item to the queue. Since the first is not done merging
    // into the staging area, the build state should not have changed.
    handle_event(
        &ui,
        &vcs,
        &ci,
        &mut db,
        Event::UiEvent(ui::Event::Approved(
            PipelineId(0),
            pr("C"),
            Some(commit("C")),
            "Message!".to_owned(),
        )),
    );
    assert_eq!(
        running_of(&mut db),
        Some(RunningEntry {
            pull_commit: commit("A"),
            merge_commit: None,
            pr: pr("A"),
            canceled: false,
            built: false,
            message: "MSG!".to_owned(),
        })
    );
    assert_eq!(queue_of(&mut db).len(), 1);
    // The first is now done merging. It should now be sent to the CI.
    *vcs.staging.borrow_mut() = Some(commit("B"));
    handle_event(
        &ui,
        &vcs,
        &ci,
        &mut db,
        Event::VcsEvent(vcs::Event::MergedToStaging(
            PipelineId(0),
            commit("A"),
            commit("B"),
        )),
    );
    assert_eq!(
        running_of(&mut db),
        Some(RunningEntry {
            pull_commit: commit("A"),
            merge_commit: Some(commit("B")),
            pr: pr("A"),
            canceled: false,
            built: false,
            message: "MSG!".to_owned(),
        })
    );
    assert_eq!(vcs.staging(), Some(commit("B")));
    assert!(vcs.master().is_none());
    assert_eq!(ci.build(), Some(commit("B")));
    assert_eq!(
        *ui.results.borrow(),
        vec![(pr("A"), Status::StartingBuild(commit("A"), commit("B")))]
    );
    // The CI successfully built it. It should now be moved to master.
    handle_event(
        &ui,
        &vcs,
        &ci,
        &mut db,
        Event::CiEvent(ci::Event::BuildSucceeded(PipelineId(0), commit("B"), None)),
    );
    assert_eq!(vcs.staging(), Some(commit("B")));
    assert_eq!(vcs.master(), Some(commit("B")));
    assert_eq!(
        *ui.results.borrow(),
        vec![
            (pr("A"), Status::StartingBuild(commit("A"), commit("B"))),
            (pr("A"), Status::Success(commit("A"), commit("B"), None)),
        ]
    );
    // It has been successfully moved to master. The next build should
    // start, and this one should be reported complete.
    handle_event(
        &ui,
        &vcs,
        &ci,
        &mut db,
        Event::VcsEvent(vcs::Event::MovedToMaster(PipelineId(0), commit("B"))),
    );
    assert_eq!(vcs.staging(), Some(commit("C")));
    assert_eq!(vcs.master(), Some(commit("B")));
    assert_eq!(
        *ui.results.borrow(),
        vec![
            (pr("A"), Status::StartingBuild(commit("A"), commit("B"))),
            (pr("A"), Status::Success(commit("A"), commit("B"), None)),
            (pr("A"), Status::Completed(commit("A"), commit("B"))),
        ]
    );
    // The second one is now merged into staging; let's start building.
    *vcs.staging.borrow_mut() = Some(commit("D"));
    handle_event(
        &ui,
        &vcs,
        &ci,
        &mut db,
        Event::VcsEvent(vcs::Event::MergedToStaging(
            PipelineId(0),
            commit("C"),
            commit("D"),
        )),
    );
    assert_eq!(ci.build(), Some(commit("D")));
    assert_eq!(
        *ui.results.borrow(),
        vec![
            (pr("A"), Status::StartingBuild(commit("A"), commit("B"))),
            (pr("A"), Status::Success(commit("A"), commit("B"), None)),
            (pr("A"), Status::Completed(commit("A"), commit("B"))),
            (pr("C"), Status::StartingBuild(commit("C"), commit("D"))),
        ]
    );
}

#[test]
fn runthrough_leaves_store_empty() {
    let ui = MemoryUi::new();
    let vcs = MemoryVcs::new();
    let ci = MemoryCi::new();
    let mut db = MemoryDb::new();
    handle_event(
        &ui,
        &vcs,
        &ci,
        &mut db,
        Event::UiEvent(ui::Event::Approved(
            PipelineId(0),
            pr("A"),
            Some(commit("A")),
            "m".to_owned(),
        )),
    );
    handle_event(
        &ui,
        &vcs,
        &ci,
        &mut db,
        Event::VcsEvent(vcs::Event::MergedToStaging(
            PipelineId(0),
            commit("A"),
            commit("B"),
        )),
    );
    handle_event(
        &ui,
        &vcs,
        &ci,
        &mut db,
        Event::CiEvent(ci::Event::BuildSucceeded(PipelineId(0), commit("B"), None)),
    );
    handle_event(
        &ui,
        &vcs,
        &ci,
        &mut db,
        Event::VcsEvent(vcs::Event::MovedToMaster(PipelineId(0), commit("B"))),
    );
    assert!(running_of(&mut db).is_none());
    assert!(queue_of(&mut db).is_empty());
    assert!(db.list_pending(PipelineId(0)).is_empty());
    assert_eq!(vcs.master(), Some(commit("B")));
}

#[test]
fn approved_stale_commit_invalidated() {
    let ui = MemoryUi::new();
    let vcs = MemoryVcs::new();
    let ci = MemoryCi::new();
    let mut db = MemoryDb::new();
    handle_event(
        &ui,
        &vcs,
        &ci,
        &mut db,
        Event::UiEvent(ui::Event::Opened(PipelineId(0), pr("A"), commit("A"))),
    );
    handle_event(
        &ui,
        &vcs,
        &ci,
        &mut db,
        Event::UiEvent(ui::Event::Approved(
            PipelineId(0),
            pr("A"),
            Some(commit("B")),
            "m".to_owned(),
        )),
    );
    assert_eq!(*ui.results.borrow(), vec![(pr("A"), Status::Invalidated)]);
    assert!(running_of(&mut db).is_none());
    assert!(queue_of(&mut db).is_empty());
}

#[test]
fn changed_invalidates_running_and_tracks_pending() {
    let ui = MemoryUi::new();
    let vcs = MemoryVcs::new();
    let ci = MemoryCi::new();
    let mut db = MemoryDb::new();
    db.put_running(
        PipelineId(0),
        RunningEntry {
            pull_commit: commit("A"),
            merge_commit: Some(commit("B")),
            pr: pr("A"),
            message: "m".to_owned(),
            canceled: false,
            built: false,
        },
    );
    handle_event(
        &ui,
        &vcs,
        &ci,
        &mut db,
        Event::UiEvent(ui::Event::Changed(PipelineId(0), pr("A"), commit("C"))),
    );
    assert_eq!(*ui.results.borrow(), vec![(pr("A"), Status::Invalidated)]);
    assert!(running_of(&mut db).unwrap().canceled);
    let pending = db.list_pending(PipelineId(0));
    assert_eq!(pending.len(), 1);
    assert_eq!(pending[0].pr, pr("A"));
    assert_eq!(pending[0].commit, commit("C"));
}

#[test]
fn closed_then_vcs_and_ci_events_are_silent() {
    let ui = MemoryUi::new();
    let vcs = MemoryVcs::new();
    let ci = MemoryCi::new();
    let mut db = MemoryDb::new();
    db.put_running(
        PipelineId(0),
        RunningEntry {
            pull_commit: commit("A"),
            merge_commit: None,
            pr: pr("A"),
            message: "m".to_owned(),
            canceled: false,
            built: false,
        },
    );
    handle_event(
        &ui,
        &vcs,
        &ci,
        &mut db,
        Event::UiEvent(ui::Event::Closed(PipelineId(0), pr("A"))),
    );
    assert!(running_of(&mut db).unwrap().canceled);
    handle_event(
        &ui,
        &vcs,
        &ci,
        &mut db,
        Event::CiEvent(ci::Event::BuildStarted(PipelineId(0), commit("B"), None)),
    );
    handle_event(
        &ui,
        &vcs,
        &ci,
        &mut db,
        Event::VcsEvent(vcs::Event::MergedToStaging(
            PipelineId(0),
            commit("A"),
            commit("B"),
        )),
    );
    assert!(ui.results.borrow().is_empty());
    assert!(running_of(&mut db).is_none());
    assert!(ci.build().is_none());
}

#[test]
fn merged_to_staging_duplicate_is_ignored() {
    let ui = MemoryUi::new();
    let vcs = MemoryVcs::new();
    let ci = MemoryCi::new();
    let mut db = MemoryDb::new();
    db.put_running(
        PipelineId(0),
        RunningEntry {
            pull_commit: commit("A"),
            merge_commit: Some(commit("B")),
            pr: pr("A"),
            message: "m".to_owned(),
            canceled: false,
            built: false,
        },
    );
    handle_event(
        &ui,
        &vcs,
        &ci,
        &mut db,
        Event::VcsEvent(vcs::Event::MergedToStaging(
            PipelineId(0),
            commit("A"),
            commit("C"),
        )),
    );
    assert_eq!(
        running_of(&mut db).unwrap(),
        RunningEntry {
            pull_commit: commit("A"),
            merge_commit: Some(commit("B")),
            pr: pr("A"),
            message: "m".to_owned(),
            canceled: false,
            built: false,
        }
    );
    assert!(ui.results.borrow().is_empty());
    assert!(ci.build().is_none());
}

#[test]
fn build_succeeded_sets_built_with_merge_present() {
    let ui = MemoryUi::new();
    let vcs = MemoryVcs::new();
    let ci = MemoryCi::new();
    let mut db = MemoryDb::new();
    db.put_running(
        PipelineId(0),
        RunningEntry {
            pull_commit: commit("A"),
            merge_commit: Some(commit("B")),
            pr: pr("A"),
            message: "m".to_owned(),
            canceled: false,
            built: false,
        },
    );
    handle_event(
        &ui,
        &vcs,
        &ci,
        &mut db,
        Event::CiEvent(ci::Event::BuildSucceeded(PipelineId(0), commit("B"), None)),
    );
    let running = running_of(&mut db).unwrap();
    assert!(running.built);
    assert_eq!(running.merge_commit, Some(commit("B")));
}
