//! Paths as sequences of components.
//!
//! The traversal logic never inspects the bytes of a whole path: it only asks
//! whether one path is the other's ancestor, strips a root prefix to obtain a
//! root-relative path, and compares paths for equality. A path is therefore
//! modeled as its list of components; the unverified shell converts between
//! this form and the platform's native path type at the boundary.

use vstd::prelude::*;

verus! {

/// A filesystem path, as the sequence of its components from the root of the
/// walk's universe (for an absolute path) or from the walk root (for a
/// relative one). The empty sequence stands for the prefixless path.
#[derive(Debug, Clone)]
pub struct FsPath {
    pub segments: Vec<String>,
}

/// A component list seen as the sequence of the components' character
/// sequences.
pub open spec fn segs_view(segments: Seq<String>) -> Seq<Seq<char>> {
    segments.map_values(|s: String| s@)
}

impl View for FsPath {
    type V = Seq<Seq<char>>;

    open spec fn view(&self) -> Seq<Seq<char>> {
        segs_view(self.segments@)
    }
}

/// `prefix` is `path` itself or one of its ancestors: `prefix`'s components
/// open `path`.
pub open spec fn path_starts_with(path: Seq<Seq<char>>, prefix: Seq<Seq<char>>) -> bool {
    prefix.len() <= path.len() && path.take(prefix.len() as int) == prefix
}

/// The root-relative form of `abs`: the suffix after `root` when `abs` lies
/// under `root`, and `abs` itself otherwise (the fallback when prefix
/// stripping fails).
pub open spec fn spec_rel_path(abs: Seq<Seq<char>>, root: Seq<Seq<char>>) -> Seq<Seq<char>> {
    if path_starts_with(abs, root) {
        abs.skip(root.len() as int)
    } else {
        abs
    }
}

impl FsPath {
    /// The path with no components.
    pub fn empty() -> (r: Self)
        ensures
            r@ == Seq::<Seq<char>>::empty(),
    {
        let r = Self { segments: Vec::new() };
        proof {
            assert(r@ =~= Seq::<Seq<char>>::empty());
        }
        r
    }

    /// Wrap a component list as a path.
    pub fn from_segments(segments: Vec<String>) -> (r: Self)
        ensures
            r@ == segs_view(segments@),
    {
        Self { segments }
    }

    /// Number of components.
    pub fn len(&self) -> (n: usize)
        ensures
            n == self@.len(),
    {
        self.segments.len()
    }

    /// Append one component.
    pub fn push_segment(&mut self, segment: String)
        ensures
            final(self)@ == old(self)@.push(segment@),
    {
        self.segments.push(segment);
        proof {
            assert(self@ =~= old(self)@.push(segment@));
        }
    }

    /// A copy with the same components.
    pub fn duplicate(&self) -> (r: Self)
        ensures
            r@ == self@,
    {
        let segments = self.segments.clone();
        let r = Self { segments };
        proof {
            assert forall|i: int| 0 <= i < self@.len() implies r@[i] == self@[i] by {
                assert(cloned::<String>(self.segments[i], r.segments[i]));
            }
            assert(r@ =~= self@);
        }
        r
    }

    /// Does this path lie at or under `prefix`?
    pub fn starts_with(&self, prefix: &FsPath) -> (b: bool)
        ensures
            b == path_starts_with(self@, prefix@),
    {
        let n = prefix.segments.len();
        if n > self.segments.len() {
            return false;
        }
        let mut i: usize = 0;
        while i < n
            invariant
                i <= n,
                n == prefix@.len(),
                n <= self@.len(),
                n == prefix.segments.len(),
                n <= self.segments.len(),
                forall|j: int| 0 <= j < i ==> self@[j] == prefix@[j],
            decreases n - i,
        {
            if !(self.segments[i] == prefix.segments[i]) {
                proof {
                    assert(self@[i as int] == self.segments@[i as int]@);
                    assert(prefix@[i as int] == prefix.segments@[i as int]@);
                    assert(self@.take(n as int)[i as int] == self@[i as int]);
                }
                return false;
            }
            proof {
                assert(self@[i as int] == self.segments@[i as int]@);
                assert(prefix@[i as int] == prefix.segments@[i as int]@);
            }
            i += 1;
        }
        proof {
            assert(self@.take(n as int) =~= prefix@);
        }
        true
    }

    /// Do both paths have exactly the same components?
    pub fn equals(&self, other: &FsPath) -> (b: bool)
        ensures
            b == (self@ == other@),
    {
        if self.segments.len() != other.segments.len() {
            return false;
        }
        let b = self.starts_with(other);
        proof {
            assert(self@.take(other@.len() as int) =~= self@);
            if self@ == other@ {
                assert(path_starts_with(self@, other@));
            }
        }
        b
    }

    /// The suffix of this path after `prefix`, when this path lies at or
    /// under `prefix`.
    pub fn strip_prefix(&self, prefix: &FsPath) -> (r: Option<FsPath>)
        ensures
            path_starts_with(self@, prefix@) ==> (r matches Some(rest) && rest@ == self@.skip(
                prefix@.len() as int,
            )),
            !path_starts_with(self@, prefix@) ==> r is None,
    {
        if !self.starts_with(prefix) {
            return None;
        }
        let start = prefix.segments.len();
        let mut rest: Vec<String> = Vec::new();
        let mut i: usize = start;
        while i < self.segments.len()
            invariant
                start <= i <= self.segments.len(),
                start == prefix@.len(),
                self.segments@.len() == self@.len(),
                segs_view(rest@) =~= self@.subrange(start as int, i as int),
            decreases self.segments.len() - i,
        {
            let ghost prev = rest@;
            let segment = self.segments[i].clone();
            proof {
                assert(segment == self.segments@[i as int]);
                assert(self@[i as int] == self.segments@[i as int]@);
            }
            rest.push(segment);
            proof {
                let target = self@.subrange(start as int, i as int + 1);
                assert(rest@ == prev.push(segment));
                assert(segs_view(prev).len() == prev.len());
                assert(prev.len() == i - start);
                assert(rest@.len() == prev.len() + 1);
                assert forall|j: int| 0 <= j < target.len() implies segs_view(rest@)[j]
                    == target[j] by {
                    if j < target.len() - 1 {
                        assert(segs_view(prev)[j] == self@.subrange(start as int, i as int)[j]);
                        assert(rest@[j] == prev[j]);
                    } else {
                        assert(j == prev.len());
                        assert(rest@[j] == segment);
                    }
                }
                assert(segs_view(rest@) =~= target);
            }
            i += 1;
        }
        let r = FsPath { segments: rest };
        proof {
            assert(r@ =~= self@.skip(start as int));
        }
        Some(r)
    }

    /// The root-relative form of this path: the suffix after `root` when this
    /// path lies under `root`, and the path itself otherwise.
    pub fn rel_to(&self, root: &FsPath) -> (r: FsPath)
        ensures
            r@ == spec_rel_path(self@, root@),
    {
        match self.strip_prefix(root) {
            Some(rest) => rest,
            None => self.duplicate(),
        }
    }
}

} // verus!
