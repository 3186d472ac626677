//! Traversal options and their normalization.
//!
//! Options are fixed before a walk starts. The walk itself consumes them only
//! through the derived quantities below: the normalized worker count, the
//! optional depth bound handed to the scanner, and the two queue capacities.

use vstd::prelude::*;

verus! {

/// Options to control traversal.
#[derive(Debug, Clone, Copy, PartialEq, Eq, Structural)]
pub struct WalkOptions {
    /// Maximum recursion depth. 0 lists only the root's immediate children;
    /// `usize::MAX` means unbounded.
    pub depth: usize,
    /// Include hidden files and folders. When false, conventionally hidden
    /// entries are filtered out by the scanner.
    pub include_hidden: bool,
    /// When true, the scanner uses multiple worker threads; otherwise it runs
    /// single-threaded.
    pub parallelize_recursion: bool,
    /// Number of worker threads when parallelizing. Zero is coerced to one.
    pub max_concurrency: usize,
}

/// `o` with a zero worker count coerced to one; all other fields unchanged.
pub open spec fn spec_normalized(o: WalkOptions) -> WalkOptions {
    WalkOptions {
        max_concurrency: if o.max_concurrency == 0 {
            1
        } else {
            o.max_concurrency
        },
        ..o
    }
}

/// The number of scanner worker threads `o` asks for: the normalized worker
/// count when parallel recursion is on, one otherwise.
pub open spec fn spec_thread_count(o: WalkOptions) -> usize {
    if o.parallelize_recursion {
        spec_normalized(o).max_concurrency
    } else {
        1
    }
}

impl Default for WalkOptions {
    /// Unbounded depth, hidden entries included, parallel scan with eight
    /// workers.
    fn default() -> (r: Self)
        ensures
            r.depth == usize::MAX,
            r.include_hidden,
            r.parallelize_recursion,
            r.max_concurrency == 8,
    {
        Self { depth: usize::MAX, include_hidden: true, parallelize_recursion: true, max_concurrency: 8 }
    }
}

impl WalkOptions {
    /// These options with a zero worker count coerced to one.
    pub fn normalized(self) -> (r: Self)
        ensures
            r == spec_normalized(self),
    {
        Self {
            max_concurrency: if self.max_concurrency == 0 {
                1
            } else {
                self.max_concurrency
            },
            ..self
        }
    }

    /// How many scanner worker threads to run.
    pub fn thread_count(&self) -> (n: usize)
        ensures
            n == spec_thread_count(*self),
            n >= 1,
    {
        if self.parallelize_recursion {
            if self.max_concurrency == 0 {
                1
            } else {
                self.max_concurrency
            }
        } else {
            1
        }
    }

    /// The depth bound handed to the scanner: none when the depth is
    /// unbounded.
    pub fn bounded_depth(&self) -> (d: Option<usize>)
        ensures
            self.depth == usize::MAX ==> d is None,
            self.depth != usize::MAX ==> d == Some(self.depth),
    {
        if self.depth == usize::MAX {
            None
        } else {
            Some(self.depth)
        }
    }

    /// Capacity of the bounded path queue between scanner and consumer:
    /// sixteen slots per normalized worker, saturating at the machine limit.
    pub fn path_queue_capacity(&self) -> (c: usize)
        ensures
            spec_normalized(*self).max_concurrency <= usize::MAX / 16 ==> c == spec_normalized(
                *self,
            ).max_concurrency * 16,
            spec_normalized(*self).max_concurrency > usize::MAX / 16 ==> c == usize::MAX,
            c >= 1,
    {
        let workers = if self.max_concurrency == 0 {
            1
        } else {
            self.max_concurrency
        };
        if workers > usize::MAX / 16 {
            usize::MAX
        } else {
            workers * 16
        }
    }

    /// Capacity of the bounded output queue between consumer and caller: four
    /// slots per normalized worker, saturating at the machine limit.
    pub fn output_queue_capacity(&self) -> (c: usize)
        ensures
            spec_normalized(*self).max_concurrency <= usize::MAX / 4 ==> c == spec_normalized(
                *self,
            ).max_concurrency * 4,
            spec_normalized(*self).max_concurrency > usize::MAX / 4 ==> c == usize::MAX,
            c >= 1,
    {
        let workers = if self.max_concurrency == 0 {
            1
        } else {
            self.max_concurrency
        };
        if workers > usize::MAX / 4 {
            usize::MAX
        } else {
            workers * 4
        }
    }
}

} // verus!
