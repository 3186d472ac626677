//! The walk's guarantees, stated and proved over the model the contracts in
//! the other modules speak of.

use vstd::prelude::*;

use crate::fspath::path_starts_with;
use crate::fspath::spec_rel_path;
use crate::options::WalkOptions;
use crate::options::spec_normalized;
use crate::prune::spec_covers;
use crate::walk::ConsumerState;
use crate::walk::ScanAction;
use crate::walk::spec_scan_action;

verus! {

/// The canonicalized walk root is never handed to the callback: whatever the
/// abort flag, the prune set and the read outcome, the scanner filter never
/// enqueues the root path itself, and the consumer only sees enqueued paths.
pub proof fn lemma_root_never_enqueued(
    aborted: bool,
    pruned: Seq<Seq<Seq<char>>>,
    root: Seq<Seq<char>>,
    readable: bool,
)
    ensures
        spec_scan_action(aborted, pruned, root, root, readable) != ScanAction::Enqueue,
{
}

/// Once the abort flag is set, every scanner worker quits instead of issuing
/// more work, whatever entry it was looking at.
pub proof fn lemma_scanner_quits_after_abort(
    pruned: Seq<Seq<Seq<char>>>,
    root: Seq<Seq<char>>,
    path: Seq<Seq<char>>,
    readable: bool,
)
    ensures
        spec_scan_action(true, pruned, root, path, readable) == ScanAction::Quit,
{
}

/// Abort boundary: a consumer that has observed the abort flag admits no
/// entry, so no callback invocation begins after that observation.
pub proof fn lemma_no_admission_after_abort(s: ConsumerState, path: Seq<Seq<char>>)
    requires
        s.aborted,
    ensures
        !s.admits(path),
{
}

/// Growing the prune set never uncovers a path: whatever was covered before
/// an insertion is covered after it.
pub proof fn lemma_covers_monotone(
    pruned: Seq<Seq<Seq<char>>>,
    member: Seq<Seq<char>>,
    path: Seq<Seq<char>>,
)
    requires
        spec_covers(pruned, path),
    ensures
        spec_covers(pruned.push(member), path),
{
    let i = choose|i: int| 0 <= i < pruned.len() && path_starts_with(path, pruned[i]);
    assert(pruned.push(member)[i] == pruned[i]);
}

/// A confirmed `SkipDescend` on `target` covers every path at or under
/// `target`: after the prune set gains `target`, such a path is covered.
pub proof fn lemma_skip_descend_covers(
    pruned: Seq<Seq<Seq<char>>>,
    target: Seq<Seq<char>>,
    descendant: Seq<Seq<char>>,
)
    requires
        path_starts_with(descendant, target),
    ensures
        spec_covers(pruned.push(target), descendant),
{
    assert(pruned.push(target)[pruned.len() as int] == target);
}

/// Monotone pruning, end to end: in any consumer state whose prune set
/// covers a path, that path is not admitted, so it never reaches the
/// callback.
pub proof fn lemma_covered_path_not_admitted(s: ConsumerState, path: Seq<Seq<char>>)
    requires
        spec_covers(s.pruned@, path),
    ensures
        !s.admits(path),
{
}

/// An entry `k` levels below the root keeps its depth in its relative path:
/// stripping the root leaves exactly `k` components. In particular the
/// relative path of an immediate child of the root has exactly one.
pub proof fn lemma_rel_path_depth(abs: Seq<Seq<char>>, root: Seq<Seq<char>>)
    requires
        path_starts_with(abs, root),
    ensures
        spec_rel_path(abs, root).len() == abs.len() - root.len(),
{
}

/// A requested worker count of zero behaves exactly like a count of one:
/// normalization maps the two option records to the same record, so every
/// quantity the walk derives from them coincides.
pub proof fn lemma_zero_concurrency_like_one(zero: WalkOptions, one: WalkOptions)
    requires
        zero.max_concurrency == 0,
        one.max_concurrency == 1,
        zero.depth == one.depth,
        zero.include_hidden == one.include_hidden,
        zero.parallelize_recursion == one.parallelize_recursion,
    ensures
        spec_normalized(zero) == spec_normalized(one),
{
}

/// The set of paths a continue-only run delivers out of the queued sequence
/// `inputs`, from state `s`. While every decision is `Continue` the state
/// never changes, so each queued path is delivered exactly when `s` admits
/// it.
pub open spec fn spec_delivered_set(s: ConsumerState, inputs: Seq<Seq<Seq<char>>>) -> Set<
    Seq<Seq<char>>,
>
    decreases inputs.len(),
{
    if inputs.len() == 0 {
        Set::empty()
    } else if s.admits(inputs.first()) {
        spec_delivered_set(s, inputs.drop_first()).insert(inputs.first())
    } else {
        spec_delivered_set(s, inputs.drop_first())
    }
}

/// What a continue-only run delivers is exactly the admitted subset of what
/// was queued, regardless of arrangement.
pub proof fn lemma_delivered_set_characterization(s: ConsumerState, inputs: Seq<Seq<Seq<char>>>)
    ensures
        forall|p: Seq<Seq<char>>|
            spec_delivered_set(s, inputs).contains(p) <==> inputs.contains(p) && s.admits(p),
    decreases inputs.len(),
{
    if inputs.len() > 0 {
        lemma_delivered_set_characterization(s, inputs.drop_first());
        assert forall|p: Seq<Seq<char>>| inputs.contains(p) implies (p == inputs.first()
            || inputs.drop_first().contains(p)) by {
            let i = choose|i: int| 0 <= i < inputs.len() && inputs[i] == p;
            if i > 0 {
                assert(inputs.drop_first()[i - 1] == p);
            }
        }
        assert forall|p: Seq<Seq<char>>| inputs.drop_first().contains(p) implies inputs.contains(
            p,
        ) by {
            let i = choose|i: int| 0 <= i < inputs.drop_first().len() && inputs.drop_first()[i]
                == p;
            assert(inputs[i + 1] == p);
        }
        assert(inputs.contains(inputs.first()));
    }
}

/// Absent prune and abort, nothing is withheld: from the fresh state every
/// walk starts in, a continue-only run delivers exactly the queued paths.
pub proof fn lemma_fresh_run_delivers_everything(s: ConsumerState, inputs: Seq<Seq<Seq<char>>>)
    requires
        s.phase == crate::walk::ConsumerPhase::Running,
        !s.aborted,
        s.pruned@ == Seq::<Seq<Seq<char>>>::empty(),
    ensures
        forall|p: Seq<Seq<char>>|
            spec_delivered_set(s, inputs).contains(p) <==> inputs.contains(p),
{
    lemma_delivered_set_characterization(s, inputs);
    assert forall|p: Seq<Seq<char>>| s.admits(p) by {
        assert(!spec_covers(s.pruned@, p));
    }
}

/// Concurrency equivalence: for a fixed set of discovered entries, the set
/// of paths a continue-only run delivers does not depend on the order in
/// which racing workers queued them. Two queue arrangements with the same
/// entries deliver the same set, whether one worker produced them or many.
pub proof fn lemma_delivery_order_irrelevant(
    s: ConsumerState,
    a: Seq<Seq<Seq<char>>>,
    b: Seq<Seq<Seq<char>>>,
)
    requires
        a.to_multiset() == b.to_multiset(),
    ensures
        spec_delivered_set(s, a) == spec_delivered_set(s, b),
{
    lemma_delivered_set_characterization(s, a);
    lemma_delivered_set_characterization(s, b);
    assert forall|p: Seq<Seq<char>>|
        spec_delivered_set(s, a).contains(p) == spec_delivered_set(s, b).contains(p) by {
        vstd::seq_lib::to_multiset_contains(a, p);
        vstd::seq_lib::to_multiset_contains(b, p);
        assert(spec_delivered_set(s, a).contains(p) <==> a.contains(p) && s.admits(p));
        assert(spec_delivered_set(s, b).contains(p) <==> b.contains(p) && s.admits(p));
    }
    assert(spec_delivered_set(s, a) =~= spec_delivered_set(s, b));
}

} // verus!
