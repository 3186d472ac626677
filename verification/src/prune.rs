//! The prune set: subtrees the caller asked to skip.
//!
//! During one walk the set only grows. Membership is asked as "is this path
//! at or under any member" — a linear scan over every member, acceptable
//! because prunes are rare relative to the entries visited. The consumer is
//! the sole writer; in the running system the scanner reads a racy copy of it
//! behind a lock, which the shell provides.

use vstd::prelude::*;

use crate::fspath::FsPath;
use crate::fspath::path_starts_with;

verus! {

/// A collection of pruned subtree roots, each an absolute path.
#[derive(Debug)]
pub struct PruneSet {
    pub members: Vec<FsPath>,
}

impl View for PruneSet {
    type V = Seq<Seq<Seq<char>>>;

    open spec fn view(&self) -> Seq<Seq<Seq<char>>> {
        self.members@.map_values(|p: FsPath| p@)
    }
}

/// `path` is equal to, or a descendant of, some member of `pruned`.
pub open spec fn spec_covers(pruned: Seq<Seq<Seq<char>>>, path: Seq<Seq<char>>) -> bool {
    exists|i: int| 0 <= i < pruned.len() && path_starts_with(path, pruned[i])
}

impl PruneSet {
    /// The empty prune set every walk starts from.
    pub fn new() -> (r: Self)
        ensures
            r@ == Seq::<Seq<Seq<char>>>::empty(),
    {
        let r = Self { members: Vec::new() };
        proof {
            assert(r@ =~= Seq::<Seq<Seq<char>>>::empty());
        }
        r
    }

    /// Record one more pruned subtree root. The set only ever grows.
    pub fn insert(&mut self, path: FsPath)
        ensures
            final(self)@ == old(self)@.push(path@),
    {
        let ghost p_view = path@;
        self.members.push(path);
        proof {
            assert(self@ =~= old(self)@.push(p_view));
        }
    }

    /// Is `path` equal to or a descendant of any member?
    pub fn covers(&self, path: &FsPath) -> (b: bool)
        ensures
            b == spec_covers(self@, path@),
    {
        let n = self.members.len();
        let mut i: usize = 0;
        while i < n
            invariant
                i <= n,
                n == self.members.len(),
                n == self@.len(),
                forall|j: int| 0 <= j < i ==> !path_starts_with(path@, self@[j]),
            decreases n - i,
        {
            if path.starts_with(&self.members[i]) {
                proof {
                    assert(self@[i as int] == self.members@[i as int]@);
                }
                return true;
            }
            proof {
                assert(self@[i as int] == self.members@[i as int]@);
            }
            i += 1;
        }
        false
    }
}

} // verus!
