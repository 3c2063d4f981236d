//! What a traversal does, as a function of the processor and the tree.
//!
//! A processor is known to the engine through the answers of its hooks. The
//! trait `Processor` names each answer as a function of the processor and of
//! what the hook is shown; the functions here say which hooks the engine
//! calls, in which order and with which state, and what becomes of the tree.

use crate::processor::action::{Descent, HookResult, ProcessingResult};
use crate::processor::model::{Bag, Child, ChildList, Content, MetaView, Slot, Tree};
use crate::processor::model::Hook;
use crate::processor::state::StateView;
use crate::processor::traits::Processor;
use vstd::prelude::*;

verus! {

/// What a processor answers to one of its hooks: what has become of the
/// processor and of the metadata, the new content where the hook was shown
/// a leaf, and the result.
pub struct Reply<P> {
    pub processor: P,
    pub content: Content,
    pub meta: MetaView,
    pub result: HookResult,
}

/// What a processor answers to one of its two bracketing hooks.
pub struct Bracket<P> {
    pub processor: P,
    pub meta: MetaView,
    pub result: ProcessingResult,
}

/// What a processor answers to the hook for the open bag of a struct.
pub struct BagReply<P> {
    pub processor: P,
    pub result: HookResult,
}

/// The outcome of showing a value to a processor.
pub struct Visited<P> {
    pub processor: P,
    pub tree: Tree,
    pub meta: MetaView,
    pub result: ProcessingResult,
}

/// The outcome of processing an annotated value.
pub struct SlotVisited<P> {
    pub processor: P,
    pub slot: Slot,
    pub result: ProcessingResult,
}

/// The outcome of processing the children of a value.
pub struct Descended<P> {
    pub processor: P,
    pub tree: Tree,
    pub result: ProcessingResult,
}

/// The outcome of processing a list of children.
pub struct Walked<P> {
    pub processor: P,
    pub children: Seq<Child>,
    pub result: ProcessingResult,
}

/// The answer `reply` is what a hook for a leaf gave: the processor, the
/// content and the metadata are as the answer names them, and so is the
/// result, as far as it matters for a leaf.
pub open spec fn leaf_answer<P>(
    reply: Reply<P>,
    processor: P,
    content: Content,
    meta: MetaView,
    result: ProcessingResult,
) -> bool {
    &&& reply.processor == processor
    &&& reply.content == content
    &&& reply.meta == meta
    &&& crate::processor::action::spec_settled(reply.result) == result
}

/// The answer `reply` is what a hook for an untyped value or for a type that
/// wraps one value gave. Such a hook cannot keep the engine from what the
/// value holds: of its result only the action counts.
pub open spec fn wrapper_answer<P>(
    reply: Reply<P>,
    processor: P,
    meta: MetaView,
    result: ProcessingResult,
) -> bool {
    &&& reply.processor == processor
    &&& reply.meta == meta
    &&& crate::processor::action::spec_settled(reply.result) == result
}

/// The answer `reply` is what a hook for a branch gave: a sequence, a map or a
/// struct.
pub open spec fn node_answer<P>(
    reply: Reply<P>,
    processor: P,
    meta: MetaView,
    result: HookResult,
) -> bool {
    &&& reply.processor == processor
    &&& reply.meta == meta
    &&& reply.result == result
}

/// The state in which a child is visited.
pub open spec fn child_state(state: StateView, child: Child) -> StateView {
    match child.segment {
        Some(segment) => state.enter(segment, child.attrs, child.slot.kind()),
        None => state.enter_nothing(child.attrs),
    }
}

/// Showing a value to a processor: the hook of its kind is called once. On
/// the word of the hook for a branch its children are visited. What an
/// untyped value or a wrapper holds is shown after their hook whenever that
/// hook does not end the traversal.
pub open spec fn visit_tree<P: Processor>(
    p: P,
    tree: Tree,
    meta: MetaView,
    state: StateView,
) -> Visited<P>
    decreases tree, 2int, 0int,
{
    match tree {
        Tree::Leaf { hook, kind, content } => match hook {
            None => Visited { processor: p, tree, meta, result: Ok(()) },
            Some(h) => {
                let reply = p.on(h, tree, meta, state);
                Visited {
                    processor: reply.processor,
                    tree: Tree::Leaf { hook, kind, content: reply.content },
                    meta: reply.meta,
                    result: crate::processor::action::spec_settled(reply.result),
                }
            },
        },
        Tree::Branch { hook, .. } => {
            let reply = match hook {
                Some(h) => p.on(h, tree, meta, state),
                None => Reply {
                    processor: p,
                    content: Content::Atom(0),
                    meta,
                    result: Ok(Descent::Recurse),
                },
            };
            match reply.result {
                Ok(Descent::Recurse) => {
                    let below = visit_children(reply.processor, tree, state);
                    Visited {
                        processor: below.processor,
                        tree: below.tree,
                        meta: reply.meta,
                        result: below.result,
                    }
                },
                answer => Visited {
                    processor: reply.processor,
                    tree,
                    meta: reply.meta,
                    result: crate::processor::action::spec_settled(answer),
                },
            }
        },
        Tree::Dynamic(inner) => {
            let reply = p.on(Hook::Value, tree, meta, state);
            match reply.result {
                Err(action) => Visited {
                    processor: reply.processor,
                    tree,
                    meta: reply.meta,
                    result: Err(action),
                },
                Ok(_) => {
                    let held = visit_bracketed(
                        reply.processor,
                        *inner,
                        reply.meta,
                        state.enter_nothing(Some(state.attrs)),
                    );
                    Visited {
                        processor: held.processor,
                        tree: Tree::Dynamic(Box::new(held.tree)),
                        meta: held.meta,
                        result: held.result,
                    }
                },
            }
        },
        Tree::Newtype { hook, attrs, inner } => {
            let reply = match hook {
                Some(h) => p.on(h, tree, meta, state),
                None => Reply {
                    processor: p,
                    content: Content::Atom(0),
                    meta,
                    result: Ok(Descent::Recurse),
                },
            };
            match reply.result {
                Err(action) => Visited {
                    processor: reply.processor,
                    tree,
                    meta: reply.meta,
                    result: Err(action),
                },
                Ok(_) => {
                    let held = visit_tree(
                        reply.processor,
                        *inner,
                        reply.meta,
                        state.enter_nothing(attrs),
                    );
                    Visited {
                        processor: held.processor,
                        tree: Tree::Newtype { hook, attrs, inner: Box::new(held.tree) },
                        meta: held.meta,
                        result: held.result,
                    }
                },
            }
        },
    }
}

/// Showing a present value to a processor between the two bracketing hooks:
/// the one before, the value itself, the one after. The first that ends the
/// traversal is the last that is called.
pub open spec fn visit_bracketed<P: Processor>(
    p: P,
    tree: Tree,
    meta: MetaView,
    state: StateView,
) -> Visited<P>
    decreases tree, 3int, 0int,
{
    let before = p.around(false, Some(tree), meta, state);
    match before.result {
        Err(action) => Visited {
            processor: before.processor,
            tree,
            meta: before.meta,
            result: Err(action),
        },
        Ok(_) => {
            let shown = visit_tree(before.processor, tree, before.meta, state);
            match shown.result {
                Err(action) => shown,
                Ok(_) => {
                    let after = shown.processor.around(true, Some(shown.tree), shown.meta, state);
                    Visited {
                        processor: after.processor,
                        tree: shown.tree,
                        meta: after.meta,
                        result: after.result,
                    }
                },
            }
        },
    }
}

/// Processing an annotated value. Where the value is absent only the two
/// bracketing hooks are called.
pub open spec fn visit_slot<P: Processor>(p: P, slot: Slot, state: StateView) -> SlotVisited<P>
    decreases slot, 4int, 0int,
{
    match slot.value {
        Some(tree) => {
            let shown = visit_bracketed(p, tree, slot.meta, state);
            SlotVisited {
                processor: shown.processor,
                slot: Slot { value: Some(shown.tree), meta: shown.meta },
                result: shown.result,
            }
        },
        None => {
            let before = p.around(false, None, slot.meta, state);
            match before.result {
                Err(action) => SlotVisited {
                    processor: before.processor,
                    slot: Slot { value: None, meta: before.meta },
                    result: Err(action),
                },
                Ok(_) => {
                    let after = before.processor.around(true, None, before.meta, state);
                    SlotVisited {
                        processor: after.processor,
                        slot: Slot { value: None, meta: after.meta },
                        result: after.result,
                    }
                },
            }
        },
    }
}

/// Processing the children `orig[from..]` in order, each in the state of its
/// position. `acc` holds the children as they stand: those before `from` as
/// their visits left them. The first visit that ends the traversal is the last.
pub open spec fn visit_from<P: Processor>(
    p: P,
    orig: Seq<Child>,
    acc: Seq<Child>,
    from: int,
    state: StateView,
) -> Walked<P>
    decreases orig, 0int, orig.len() - from,
{
    if 0 <= from < orig.len() {
        let child = orig[from];
        let seen = visit_slot(p, child.slot, child_state(state, child));
        let now = acc.update(from, Child { slot: seen.slot, ..child });
        match seen.result {
            Err(action) => Walked { processor: seen.processor, children: now, result: Err(action) },
            Ok(_) => visit_from(seen.processor, orig, now, from + 1, state),
        }
    } else {
        Walked { processor: p, children: acc, result: Ok(()) }
    }
}

/// Processing the children of a value, without a call of the hook for the
/// value itself: first the declared children in order, then, where the value
/// has an open bag, the hook for the bag and on its word the entries.
pub open spec fn visit_children<P: Processor>(p: P, tree: Tree, state: StateView) -> Descended<P>
    decreases tree, 1int, 0int,
{
    match tree {
        Tree::Branch { hook, kind, children, bag } => {
            let walked = visit_from(p, children, children, 0, state);
            match (walked.result, bag) {
                (Ok(_), Some(open)) => {
                    let bag_state = state.enter_nothing(Some(open.attrs));
                    let reply = walked.processor.on_other(open.entries, bag_state);
                    match reply.result {
                        Ok(Descent::Recurse) => {
                            let rest = visit_from(
                                reply.processor,
                                open.entries,
                                open.entries,
                                0,
                                bag_state,
                            );
                            Descended {
                                processor: rest.processor,
                                tree: Tree::Branch {
                                    hook,
                                    kind,
                                    children: walked.children,
                                    bag: Some(Bag { attrs: open.attrs, entries: rest.children }),
                                },
                                result: rest.result,
                            }
                        },
                        answer => Descended {
                            processor: reply.processor,
                            tree: Tree::Branch { hook, kind, children: walked.children, bag },
                            result: crate::processor::action::spec_settled(answer),
                        },
                    }
                },
                _ => Descended {
                    processor: walked.processor,
                    tree: Tree::Branch { hook, kind, children: walked.children, bag },
                    result: walked.result,
                },
            }
        },
        _ => Descended { processor: p, tree, result: Ok(()) },
    }
}

/// The outcome of processing the children of a struct.
pub struct ListVisited<P> {
    pub processor: P,
    pub list: ChildList,
    pub result: ProcessingResult,
}

/// Processing the children of a struct one after the other: the first, and
/// where its visit did not end the traversal, the rest.
pub open spec fn visit_list<P: Processor>(p: P, list: ChildList, state: StateView) -> ListVisited<P>
    decreases list,
{
    match list {
        ChildList::Nil => ListVisited { processor: p, list, result: Ok(()) },
        ChildList::Cons(child, rest) => {
            let seen = visit_slot(p, child.slot, child_state(state, child));
            let now = Child { slot: seen.slot, ..child };
            match seen.result {
                Err(action) => ListVisited {
                    processor: seen.processor,
                    list: ChildList::Cons(now, rest),
                    result: Err(action),
                },
                Ok(_) => {
                    let below = visit_list(seen.processor, *rest, state);
                    ListVisited {
                        processor: below.processor,
                        list: ChildList::Cons(now, Box::new(below.list)),
                        result: below.result,
                    }
                },
            }
        },
    }
}

/// One step of `visit_list`: what the visit of the first child of a list and
/// the visits of the rest make of the list.
pub proof fn lemma_list_step<P: Processor>(p: P, list: ChildList, state: StateView)
    ensures
        match list {
            ChildList::Nil => visit_list(p, list, state) == (ListVisited {
                processor: p,
                list,
                result: Ok(()),
            }),
            ChildList::Cons(child, rest) => {
                let seen = visit_slot(p, child.slot, child_state(state, child));
                let now = Child { slot: seen.slot, ..child };
                let below = visit_list(seen.processor, *rest, state);
                visit_list(p, list, state) == match seen.result {
                    Err(action) => ListVisited {
                        processor: seen.processor,
                        list: ChildList::Cons(now, rest),
                        result: Err(action),
                    },
                    Ok(_) => ListVisited {
                        processor: below.processor,
                        list: ChildList::Cons(now, Box::new(below.list)),
                        result: below.result,
                    },
                }
            },
        },
{
}

/// Processing the children of a struct one after the other is processing
/// them as a sequence, from the position that `done` children stand before.
pub proof fn lemma_visit_list_from<P: Processor>(
    p: P,
    before: Seq<Child>,
    done: Seq<Child>,
    list: ChildList,
    state: StateView,
)
    requires
        before.len() == done.len(),
    ensures
        visit_from(p, before + list.seq(), done + list.seq(), before.len() as int, state)
            == (Walked {
            processor: visit_list(p, list, state).processor,
            children: done + visit_list(p, list, state).list.seq(),
            result: visit_list(p, list, state).result,
        }),
    decreases list,
{
    let orig = before + list.seq();
    let acc = done + list.seq();
    let from = before.len() as int;
    match list {
        ChildList::Nil => {
            assert(acc =~= done + visit_list(p, list, state).list.seq());
        },
        ChildList::Cons(child, rest) => {
            assert(orig[from] == child);
            let seen = visit_slot(p, child.slot, child_state(state, child));
            let now = Child { slot: seen.slot, ..child };
            assert(acc.update(from, now) =~= (done + seq![now]) + rest.seq());
            assert(orig =~= (before + seq![child]) + rest.seq());
            match seen.result {
                Err(action) => {
                    assert((done + seq![now]) + rest.seq() =~= done + ChildList::Cons(
                        now,
                        rest,
                    ).seq());
                },
                Ok(_) => {
                    lemma_visit_list_from(
                        seen.processor,
                        before + seq![child],
                        done + seq![now],
                        *rest,
                        state,
                    );
                    let below = visit_list(seen.processor, *rest, state);
                    assert((done + seq![now]) + below.list.seq() =~= done + ChildList::Cons(
                        now,
                        Box::new(below.list),
                    ).seq());
                },
            }
        },
    }
}

/// Processing the children of a struct one after the other is processing
/// them as a sequence.
pub proof fn lemma_visit_list<P: Processor>(p: P, list: ChildList, state: StateView)
    ensures
        visit_from(p, list.seq(), list.seq(), 0, state) == (Walked {
            processor: visit_list(p, list, state).processor,
            children: visit_list(p, list, state).list.seq(),
            result: visit_list(p, list, state).result,
        }),
{
    lemma_visit_list_from(p, Seq::empty(), Seq::empty(), list, state);
    assert(Seq::<Child>::empty() + list.seq() =~= list.seq());
    assert(Seq::<Child>::empty() + visit_list(p, list, state).list.seq() =~= visit_list(
        p,
        list,
        state,
    ).list.seq());
}

} // verus!
