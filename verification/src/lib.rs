//! Concurrent, cancellable, streaming directory-tree traversal core.
//!
//! The engine scans a directory tree with a pool of worker threads while a
//! single consumer pulls discovered paths, invokes a caller-supplied decision
//! callback, and interprets the returned decision: keep walking, prune the
//! subtree, or abort the whole walk. This crate holds the verified heart of
//! that engine: the path model, the traversal options, the prune set, the
//! scanner-side filter, and the consumer state machine. The unverified shell
//! around it supplies the filesystem enumeration, the queues, and the task
//! scheduling, and drives these functions one step at a time.

pub mod config;
pub mod decision;
pub mod fspath;
pub mod laws;
pub mod options;
pub mod prune;
pub mod walk;
