//! The walk's shared state and its two decision points.
//!
//! A walk runs as a pool of scanner workers feeding one consumer through a
//! bounded path queue. Both sides share an abort flag and the prune set; the
//! consumer is the sole writer of both. The scanner asks `scan_action` what
//! to do with each entry it finds; the consumer asks `begin_entry` whether
//! the callback sees a dequeued path, and folds the callback's answer back in
//! with `apply_callback`. The unverified shell owns the threads, the queues
//! and the lock, and calls these functions one entry at a time.

use vstd::prelude::*;

use crate::decision::CbResult;
use crate::decision::WalkDecision;
use crate::fspath::FsPath;
use crate::fspath::spec_rel_path;
use crate::prune::PruneSet;
use crate::prune::spec_covers;

verus! {

/// Symlink-aware metadata for one entry, reduced to what a prune decision
/// reads: whether the entry is a directory.
#[derive(Debug, Clone, Copy, PartialEq, Eq, Structural)]
pub struct EntryMeta {
    pub is_dir: bool,
}

/// The metadata lookup confirmed a directory. A failed lookup (`None`)
/// counts as unconfirmed: the prune is downgraded to a no-op.
pub open spec fn confirmed_dir(meta: Option<EntryMeta>) -> bool {
    meta matches Some(m) && m.is_dir
}

/// Entry passed to the callback.
#[derive(Debug, Clone)]
pub struct WalkEntry {
    /// Absolute path of this entry on disk.
    pub abs_path: FsPath,
    /// Path relative to the walk root.
    pub rel_path: FsPath,
    /// Metadata, absent by default: callers fetch it on demand.
    pub metadata: Option<EntryMeta>,
}

/// What the scanner does with one discovered entry.
#[derive(Debug, Clone, Copy, PartialEq, Eq, Structural)]
pub enum ScanAction {
    /// Stop issuing work on this worker: the walk is cancelled.
    Quit,
    /// Pass over this entry and keep scanning.
    Skip,
    /// Push the entry's absolute path onto the path queue.
    Enqueue,
}

/// The scanner's per-entry filter: quit once the abort flag is seen; swallow
/// unreadable entries; drop paths under a pruned prefix (a racy check that
/// may miss very recent prunes); never enqueue the root itself; enqueue the
/// rest.
pub open spec fn spec_scan_action(
    aborted: bool,
    pruned: Seq<Seq<Seq<char>>>,
    root: Seq<Seq<char>>,
    path: Seq<Seq<char>>,
    readable: bool,
) -> ScanAction {
    if aborted {
        ScanAction::Quit
    } else if !readable {
        ScanAction::Skip
    } else if spec_covers(pruned, path) {
        ScanAction::Skip
    } else if path == root {
        ScanAction::Skip
    } else {
        ScanAction::Enqueue
    }
}

/// Decide what the scanner does with one discovered entry. `aborted` is the
/// scanner's latest read of the abort flag, `pruned` its latest read of the
/// prune set, and `readable` whether the entry was read without error.
pub fn scan_action(
    aborted: bool,
    pruned: &PruneSet,
    root: &FsPath,
    path: &FsPath,
    readable: bool,
) -> (a: ScanAction)
    ensures
        a == spec_scan_action(aborted, pruned@, root@, path@, readable),
{
    if aborted {
        ScanAction::Quit
    } else if !readable {
        ScanAction::Skip
    } else if pruned.covers(path) {
        ScanAction::Skip
    } else if path.equals(root) {
        ScanAction::Skip
    } else {
        ScanAction::Enqueue
    }
}

/// Where the consumer stands.
#[derive(Debug, Clone, Copy, PartialEq, Eq, Structural)]
pub enum ConsumerPhase {
    /// Processing entries as the scanner queues them.
    Running,
    /// The path queue has closed; finishing already-queued work.
    Draining,
    /// Terminal: exhaustion, an abort decision, or the output receiver went
    /// away.
    Stopped,
}

/// The consumer's whole mutable state: its phase, the abort flag (written
/// once, never reset) and the prune set (growing only).
#[derive(Debug)]
pub struct ConsumerState {
    pub phase: ConsumerPhase,
    pub aborted: bool,
    pub pruned: PruneSet,
}

impl ConsumerState {
    /// Still willing to process entries.
    pub open spec fn active(self) -> bool {
        self.phase != ConsumerPhase::Stopped
    }

    /// The callback sees a dequeued `path` exactly when the consumer is still
    /// active, no abort has been observed, and the path is not under a pruned
    /// prefix.
    pub open spec fn admits(self, path: Seq<Seq<char>>) -> bool {
        self.active() && !self.aborted && !spec_covers(self.pruned@, path)
    }

    /// The fresh state each walk starts from.
    pub fn new() -> (s: Self)
        ensures
            s.phase == ConsumerPhase::Running,
            !s.aborted,
            s.pruned@ == Seq::<Seq<Seq<char>>>::empty(),
    {
        Self { phase: ConsumerPhase::Running, aborted: false, pruned: PruneSet::new() }
    }

    /// Take one path off the queue. Stops immediately when the abort flag was
    /// set; silently discards paths under a pruned prefix (the authoritative
    /// check, later than the scanner's racy one); otherwise hands back the
    /// entry the callback is to see, its relative path computed against
    /// `root` and its metadata left unset.
    pub fn begin_entry(&mut self, abs: &FsPath, root: &FsPath) -> (r: Option<WalkEntry>)
        requires
            old(self).active(),
        ensures
            final(self).aborted == old(self).aborted,
            final(self).pruned@ == old(self).pruned@,
            old(self).aborted ==> final(self).phase == ConsumerPhase::Stopped,
            !old(self).aborted ==> final(self).phase == old(self).phase,
            r is Some <==> old(self).admits(abs@),
            r matches Some(e) ==> e.abs_path@ == abs@ && e.rel_path@ == spec_rel_path(abs@, root@)
                && e.metadata is None,
    {
        if self.aborted {
            self.phase = ConsumerPhase::Stopped;
            return None;
        }
        if self.pruned.covers(abs) {
            return None;
        }
        let rel_path = abs.rel_to(root);
        Some(WalkEntry { abs_path: abs.duplicate(), rel_path, metadata: None })
    }

    /// Fold the callback's answer for the entry at `abs` back into the state.
    /// `meta` is the fresh, synchronous metadata lookup the shell performed
    /// when (and only when) the decision was `SkipDescend`; a failed lookup
    /// downgrades the prune to a no-op. Returns the item to forward into the
    /// output stream, if the callback emitted one.
    pub fn apply_callback<T>(
        &mut self,
        abs: &FsPath,
        result: CbResult<T>,
        meta: Option<EntryMeta>,
    ) -> (emit: Option<T>)
        requires
            old(self).active(),
            !old(self).aborted,
        ensures
            emit == result.output,
            final(self).aborted == (result.decision == WalkDecision::Abort),
            final(self).phase == (if result.decision == WalkDecision::Abort {
                ConsumerPhase::Stopped
            } else {
                old(self).phase
            }),
            final(self).pruned@ == (if result.decision == WalkDecision::SkipDescend
                && confirmed_dir(meta) {
                old(self).pruned@.push(abs@)
            } else {
                old(self).pruned@
            }),
    {
        let CbResult { decision, output } = result;
        match decision {
            WalkDecision::Continue => {},
            WalkDecision::SkipDescend => {
                match meta {
                    Some(m) => {
                        if m.is_dir {
                            self.pruned.insert(abs.duplicate());
                        }
                    },
                    None => {},
                }
            },
            WalkDecision::Abort => {
                self.aborted = true;
                self.phase = ConsumerPhase::Stopped;
            },
        }
        output
    }

    /// The callback itself failed. By policy this terminates the walk as an
    /// implicit abort; the shell surfaces the failure as the stream's next
    /// and last item.
    pub fn apply_callback_error(&mut self)
        requires
            old(self).active(),
            !old(self).aborted,
        ensures
            final(self).aborted,
            final(self).phase == ConsumerPhase::Stopped,
            final(self).pruned@ == old(self).pruned@,
    {
        self.aborted = true;
        self.phase = ConsumerPhase::Stopped;
    }

    /// The output receiver went away: cooperative shutdown, not an error.
    pub fn output_closed(&mut self)
        ensures
            final(self).phase == ConsumerPhase::Stopped,
            final(self).aborted == old(self).aborted,
            final(self).pruned@ == old(self).pruned@,
    {
        self.phase = ConsumerPhase::Stopped;
    }

    /// The path queue closed: no new paths will arrive; finish what is
    /// already queued.
    pub fn input_closed(&mut self)
        requires
            old(self).phase == ConsumerPhase::Running,
        ensures
            final(self).phase == ConsumerPhase::Draining,
            final(self).aborted == old(self).aborted,
            final(self).pruned@ == old(self).pruned@,
    {
        self.phase = ConsumerPhase::Draining;
    }

    /// All queued work is done: the walk is over.
    pub fn finish(&mut self)
        ensures
            final(self).phase == ConsumerPhase::Stopped,
            final(self).aborted == old(self).aborted,
            final(self).pruned@ == old(self).pruned@,
    {
        self.phase = ConsumerPhase::Stopped;
    }
}

} // verus!
