//! Unit tests for the traversal options, the path model, the prune set, the
//! callback result constructors and the configuration defaults.

use ferri_core::config::{Config, LogRotation};
use ferri_core::decision::{CbResult, WalkDecision, WalkError};
use ferri_core::fspath::FsPath;
use ferri_core::options::WalkOptions;
use ferri_core::prune::PruneSet;

fn path(segs: &[&str]) -> FsPath {
    FsPath::from_segments(segs.iter().map(|s| s.to_string()).collect())
}

#[test]
fn default_options() {
    let o = WalkOptions::default();
    assert_eq!(o.depth, usize::MAX);
    assert!(o.include_hidden);
    assert!(o.parallelize_recursion);
    assert_eq!(o.max_concurrency, 8);
}

#[test]
fn zero_concurrency_normalizes_to_one() {
    let zero = WalkOptions { max_concurrency: 0, ..WalkOptions::default() };
    let one = WalkOptions { max_concurrency: 1, ..WalkOptions::default() };
    assert_eq!(zero.normalized(), one.normalized());
    assert_eq!(zero.thread_count(), one.thread_count());
    assert_eq!(zero.path_queue_capacity(), one.path_queue_capacity());
    assert_eq!(zero.output_queue_capacity(), one.output_queue_capacity());
}

#[test]
fn thread_count_honors_parallelism_toggle() {
    let parallel = WalkOptions { max_concurrency: 6, ..WalkOptions::default() };
    assert_eq!(parallel.thread_count(), 6);
    let serial = WalkOptions { parallelize_recursion: false, ..parallel };
    assert_eq!(serial.thread_count(), 1);
}

#[test]
fn queue_capacities_scale_with_workers() {
    let o = WalkOptions { max_concurrency: 2, ..WalkOptions::default() };
    assert_eq!(o.path_queue_capacity(), 32);
    assert_eq!(o.output_queue_capacity(), 8);
}

#[test]
fn bounded_depth_reflects_unbounded_marker() {
    let unbounded = WalkOptions::default();
    assert_eq!(unbounded.bounded_depth(), None);
    let shallow = WalkOptions { depth: 3, ..WalkOptions::default() };
    assert_eq!(shallow.bounded_depth(), Some(3));
    let top = WalkOptions { depth: 0, ..WalkOptions::default() };
    assert_eq!(top.bounded_depth(), Some(0));
}

#[test]
fn queue_capacities_saturate_at_machine_limit() {
    let o = WalkOptions { max_concurrency: usize::MAX, ..WalkOptions::default() };
    assert_eq!(o.path_queue_capacity(), usize::MAX);
    assert_eq!(o.output_queue_capacity(), usize::MAX);
}

#[test]
fn path_builds_component_by_component() {
    let mut p = FsPath::empty();
    assert_eq!(p.len(), 0);
    p.push_segment("fs".to_string());
    p.push_segment("root".to_string());
    assert_eq!(p.len(), 2);
    assert!(p.equals(&path(&["fs", "root"])));
    let copy = p.duplicate();
    assert!(copy.equals(&p));
}

#[test]
fn strip_prefix_rejects_non_ancestor() {
    let root = path(&["fs", "root"]);
    let elsewhere = path(&["mnt", "x"]);
    assert!(elsewhere.strip_prefix(&root).is_none());
    let stripped = path(&["fs", "root", "a"]).strip_prefix(&root).unwrap();
    assert_eq!(stripped.segments, vec!["a".to_string()]);
}

#[test]
fn callback_result_constructors() {
    let c: CbResult<u32> = CbResult::cont();
    assert_eq!(c.decision, WalkDecision::Continue);
    assert!(c.output.is_none());
    let s: CbResult<u32> = CbResult::skip();
    assert_eq!(s.decision, WalkDecision::SkipDescend);
    assert!(s.output.is_none());
    let a: CbResult<u32> = CbResult::abort();
    assert_eq!(a.decision, WalkDecision::Abort);
    assert!(a.output.is_none());
    let e = CbResult::emit(7u32);
    assert_eq!(e.decision, WalkDecision::Continue);
    assert_eq!(e.output, Some(7));
}

#[test]
fn walk_error_keeps_message() {
    let e = WalkError::new("boom".to_string());
    assert_eq!(e.message, "boom");
}

#[test]
fn rel_path_strips_root_prefix() {
    let root = path(&["fs", "root"]);
    let abs = path(&["fs", "root", "b", "c"]);
    let rel = abs.rel_to(&root);
    assert_eq!(rel.segments, vec!["b".to_string(), "c".to_string()]);
}

#[test]
fn rel_path_of_immediate_child_has_one_component() {
    let root = path(&["fs", "root"]);
    let abs = path(&["fs", "root", "a"]);
    assert_eq!(abs.rel_to(&root).segments, vec!["a".to_string()]);
}

#[test]
fn rel_path_falls_back_to_absolute() {
    let root = path(&["fs", "root"]);
    let elsewhere = path(&["mnt", "x"]);
    let rel = elsewhere.rel_to(&root);
    assert_eq!(rel.segments, vec!["mnt".to_string(), "x".to_string()]);
}

#[test]
fn starts_with_and_equals() {
    let root = path(&["fs", "root"]);
    let child = path(&["fs", "root", "a"]);
    let sibling = path(&["fs", "rootling"]);
    assert!(child.starts_with(&root));
    assert!(root.starts_with(&root));
    assert!(!root.starts_with(&child));
    assert!(!sibling.starts_with(&root));
    assert!(root.equals(&root));
    assert!(!root.equals(&child));
}

#[test]
fn prune_set_covers_members_and_descendants() {
    let mut pruned = PruneSet::new();
    let b = path(&["fs", "root", "b"]);
    pruned.insert(b);
    assert!(pruned.covers(&path(&["fs", "root", "b"])));
    assert!(pruned.covers(&path(&["fs", "root", "b", "c"])));
    assert!(!pruned.covers(&path(&["fs", "root", "a"])));
    assert!(!pruned.covers(&path(&["fs", "root"])));
}

#[test]
fn config_defaults() {
    let c = Config::defaults_in("/opt/app");
    assert_eq!(c.addr, "0.0.0.0");
    assert_eq!(c.port, 8080);
    assert_eq!(c.https_port, 8443);
    assert_eq!(c.log_level, "info");
    assert_eq!(c.log_rotation, LogRotation::Daily);
    assert_eq!(c.title, Some("Ferri".to_string()));
    assert_eq!(c.db_path, "/opt/app/ferri.db");
    assert_eq!(c.log_path, Some("/opt/app/logs".to_string()));
    assert_eq!(c.log_error_path, Some("/opt/app/logs/error".to_string()));
}
