//! What holds of every traversal, whatever the processor.
//!
//! The laws are stated over the functions of the module `walk`, which the
//! contracts of the engine are stated over too.

use crate::processor::action::ProcessingAction;
use crate::processor::model::{Bag, Child, Hook, Tree};
use crate::processor::state::StateView;
use crate::processor::traits::Processor;
use crate::processor::walk::Walked;
use crate::value_type::ValueType;
use vstd::prelude::*;

verus! {

/// The children `orig[from..upto]` are each visited without an end of the
/// traversal, one after the other: `chain` holds the processor and the
/// children as they stand before each visit.
pub open spec fn visited_in_order<P: Processor>(
    first: P,
    orig: Seq<Child>,
    upto: int,
    state: StateView,
) -> bool
    decreases upto,
{
    if upto <= 0 {
        true
    } else {
        &&& visited_in_order(first, orig, upto - 1, state)
        &&& crate::processor::walk::visit_slot(
            processor_before(first, orig, upto - 1, state),
            orig[upto - 1].slot,
            crate::processor::walk::child_state(state, orig[upto - 1]),
        ).result is Ok
    }
}

/// The processor as it stands before the visit of the child at position
/// `at`, where the visits of the children before it did not end the
/// traversal: each child was visited once, in the order of the positions,
/// and handed the processor on to the next.
pub open spec fn processor_before<P: Processor>(
    first: P,
    orig: Seq<Child>,
    at: int,
    state: StateView,
) -> P
    decreases at,
{
    if at <= 0 {
        first
    } else {
        crate::processor::walk::visit_slot(
            processor_before(first, orig, at - 1, state),
            orig[at - 1].slot,
            crate::processor::walk::child_state(state, orig[at - 1]),
        ).processor
    }
}

/// The children as they stand before the visit of the child at position
/// `at`: those before it as their visits left them, the others untouched.
pub open spec fn children_before<P: Processor>(
    first: P,
    orig: Seq<Child>,
    at: int,
    state: StateView,
) -> Seq<Child>
    decreases at,
{
    if at <= 0 {
        orig
    } else {
        children_before(first, orig, at - 1, state).update(
            at - 1,
            Child {
                slot: crate::processor::walk::visit_slot(
                    processor_before(first, orig, at - 1, state),
                    orig[at - 1].slot,
                    crate::processor::walk::child_state(state, orig[at - 1]),
                ).slot,
                ..orig[at - 1]
            },
        )
    }
}

/// Where the first `upto` children are visited without an end of the
/// traversal, the traversal of all children is the traversal of the children
/// from the position `upto` on, with the processor that the visits handed on.
pub proof fn lemma_walk_prefix<P: Processor>(
    first: P,
    orig: Seq<Child>,
    upto: int,
    state: StateView,
)
    requires
        0 <= upto <= orig.len(),
        visited_in_order(first, orig, upto, state),
    ensures
        crate::processor::walk::visit_from(first, orig, orig, 0, state)
            == crate::processor::walk::visit_from(
            processor_before(first, orig, upto, state),
            orig,
            children_before(first, orig, upto, state),
            upto,
            state,
        ),
    decreases upto,
{
    if upto > 0 {
        lemma_walk_prefix(first, orig, upto - 1, state);
    }
}

/// Every child is visited exactly once, in order: where no visit ends the
/// traversal, the traversal of the children of a sequence ends well, with the
/// processor that the last visit handed on and with every child as its one
/// visit left it.
pub proof fn lemma_every_child_once<P: Processor>(first: P, orig: Seq<Child>, state: StateView)
    requires
        visited_in_order(first, orig, orig.len() as int, state),
    ensures
        crate::processor::walk::visit_from(first, orig, orig, 0, state) == (Walked {
            processor: processor_before(first, orig, orig.len() as int, state),
            children: children_before(first, orig, orig.len() as int, state),
            result: Ok(()),
        }),
{
    lemma_walk_prefix(first, orig, orig.len() as int, state);
}

/// The traversal of the children of a node does not call the hook of the
/// node itself: it is the same whichever hook the node has, and whether it
/// has one at all.
pub proof fn lemma_children_without_own_hook<P: Processor>(
    p: P,
    hook: Option<Hook>,
    other: Option<Hook>,
    kind: Set<ValueType>,
    children: Seq<Child>,
    bag: Option<Bag>,
    state: StateView,
)
    ensures
        ({
            let with_hook = crate::processor::walk::visit_children(
                p,
                Tree::Branch { hook, kind, children, bag },
                state,
            );
            let with_other = crate::processor::walk::visit_children(
                p,
                Tree::Branch { hook: other, kind, children, bag },
                state,
            );
            &&& with_hook.processor == with_other.processor
            &&& with_hook.result == with_other.result
            &&& with_hook.tree->Branch_children == with_other.tree->Branch_children
            &&& with_hook.tree->Branch_bag == with_other.tree->Branch_bag
            &&& with_hook.tree->Branch_hook == hook
        }),
{
}

/// Where the visit of the child at position `at` ends the traversal, no
/// child after it is visited: the children after it are untouched, the
/// processor is as that visit left it, and the action is the one of that
/// visit, unchanged.
pub proof fn lemma_short_circuit<P: Processor>(
    first: P,
    orig: Seq<Child>,
    at: int,
    action: ProcessingAction,
    state: StateView,
)
    requires
        0 <= at < orig.len(),
        visited_in_order(first, orig, at, state),
        crate::processor::walk::visit_slot(
            processor_before(first, orig, at, state),
            orig[at].slot,
            crate::processor::walk::child_state(state, orig[at]),
        ).result == Err::<(), ProcessingAction>(action),
    ensures
        ({
            let walked = crate::processor::walk::visit_from(first, orig, orig, 0, state);
            let last = crate::processor::walk::visit_slot(
                processor_before(first, orig, at, state),
                orig[at].slot,
                crate::processor::walk::child_state(state, orig[at]),
            );
            &&& walked.result == Err::<(), ProcessingAction>(action)
            &&& walked.processor == last.processor
            &&& walked.children.len() == orig.len()
            &&& forall|j: int| at < j < orig.len() ==> walked.children[j] == orig[j]
        }),
{
    lemma_walk_prefix(first, orig, at, state);
    lemma_children_before(first, orig, at, state);
}

/// The children that are not yet visited are untouched.
pub proof fn lemma_children_before<P: Processor>(
    first: P,
    orig: Seq<Child>,
    at: int,
    state: StateView,
)
    requires
        0 <= at <= orig.len(),
    ensures
        children_before(first, orig, at, state).len() == orig.len(),
        forall|j: int|
            at <= j < orig.len() ==> children_before(first, orig, at, state)[j] == orig[j],
    decreases at,
{
    if at > 0 {
        lemma_children_before(first, orig, at - 1, state);
    }
}

/// An action that ends the visit of a value between the bracketing hooks is
/// handed up unchanged, and the hook after the value is not called for it:
/// where the hook before ends the traversal, the value is not shown and the
/// outcome is that of the hook before; where the value ends it, the outcome
/// is that of the value.
pub proof fn lemma_bracketing<P: Processor>(
    p: P,
    tree: Tree,
    meta: crate::processor::model::MetaView,
    state: StateView,
)
    ensures
        ({
            let before = p.around(false, Some(tree), meta, state);
            let shown = crate::processor::walk::visit_tree(
                before.processor,
                tree,
                before.meta,
                state,
            );
            let after = shown.processor.around(true, Some(shown.tree), shown.meta, state);
            let whole = crate::processor::walk::visit_bracketed(p, tree, meta, state);
            &&& before.result is Err ==> whole.processor == before.processor && whole.result
                == before.result && whole.tree == tree
            &&& before.result is Ok && shown.result is Err ==> whole == shown
            &&& before.result is Ok && shown.result is Ok ==> whole.processor == after.processor
                && whole.result == after.result && whole.tree == shown.tree && whole.meta
                == after.meta
        }),
{
}

/// A traversal is a function of the processor, the tree and the state: run
/// again on a tree that has not changed, with a processor in the same state,
/// it calls the same hooks in the same order with the same paths, and so
/// leaves the processor, the tree and the result the same.
pub proof fn lemma_deterministic<P: Processor>(
    first: P,
    second: P,
    tree: Tree,
    again: Tree,
    meta: crate::processor::model::MetaView,
    state: StateView,
    other: StateView,
)
    requires
        first == second,
        tree == again,
        state == other,
    ensures
        crate::processor::walk::visit_tree(first, tree, meta, state)
            == crate::processor::walk::visit_tree(second, again, meta, other),
        crate::processor::walk::visit_children(first, tree, state)
            == crate::processor::walk::visit_children(second, again, other),
{
}

/// The state of a child depends on the state of its parent and on the
/// child alone: the path of the child is the path of the parent with the
/// segment of the child after it, and without a segment it is the path of the
/// parent.
pub proof fn lemma_child_path(state: StateView, child: Child)
    ensures
        crate::processor::walk::child_state(state, child).path == match child.segment {
            Some(segment) => state.path.push(segment),
            None => state.path,
        },
{
}

} // verus!
