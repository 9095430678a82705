//! Core of a merge-queue bot: approved pull requests are serialized through a
//! staging branch, tested by an external CI service in the exact shape that
//! would land on the mainline, and fast-forwarded onto the mainline only after
//! a successful test.
//!
//! The crate holds the per-pipeline event-driven state machine and the
//! queue/running/pending store that backs it.  All I/O against the review
//! platform, the version-control system and the CI runner happens outside,
//! through the narrow capability traits of [`pipeline`].

pub mod ci;
pub mod db;
pub mod laws;
pub mod pipeline;
pub mod projects;
pub mod ui;
pub mod vcs;
