//! Decisions a traversal callback can return, and the callback result that
//! pairs a decision with an optional item to emit into the output stream.

use vstd::prelude::*;

verus! {

/// What the callback should do next for this entry.
#[derive(Debug, Clone, Copy, PartialEq, Eq, Structural)]
pub enum WalkDecision {
    /// Processed the entry; keep walking.
    Continue,
    /// Logically skip recursion under this path: descendants of the entry are
    /// pruned in user space and are not delivered.
    SkipDescend,
    /// Abort the entire walk as soon as possible.
    Abort,
}

/// Callback result: a control decision plus an optional item to emit.
#[derive(Debug)]
pub struct CbResult<T> {
    pub decision: WalkDecision,
    pub output: Option<T>,
}

impl<T> CbResult<T> {
    /// Keep walking, emit nothing.
    pub fn cont() -> (r: Self)
        ensures
            r.decision == WalkDecision::Continue,
            r.output is None,
    {
        Self { decision: WalkDecision::Continue, output: None }
    }

    /// Prune this subtree, emit nothing.
    pub fn skip() -> (r: Self)
        ensures
            r.decision == WalkDecision::SkipDescend,
            r.output is None,
    {
        Self { decision: WalkDecision::SkipDescend, output: None }
    }

    /// Abort the whole walk, emit nothing.
    pub fn abort() -> (r: Self)
        ensures
            r.decision == WalkDecision::Abort,
            r.output is None,
    {
        Self { decision: WalkDecision::Abort, output: None }
    }

    /// Keep walking and emit `item` into the output stream.
    pub fn emit(item: T) -> (r: Self)
        ensures
            r.decision == WalkDecision::Continue,
            r.output == Some(item),
    {
        Self { decision: WalkDecision::Continue, output: Some(item) }
    }
}

/// Error surfaced by a walk: carried through the output stream and returned
/// first by the draining entry point.
#[derive(Debug)]
pub struct WalkError {
    pub message: String,
}

impl WalkError {
    /// Wrap a message as a walk error.
    pub fn new(message: String) -> (r: Self)
        ensures
            r.message == message,
    {
        Self { message }
    }
}

} // verus!
