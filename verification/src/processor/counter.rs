//! A processor that counts what it is shown.

use crate::meta::Meta;
use crate::number::FiniteF64;
use crate::processor::action::{Descent, HookResult, ProcessingResult};
use crate::processor::model::{Child, Content, Hook, MetaView, Tree};
use crate::processor::state::{ProcessingState, StateView};
use crate::processor::traits::{Node, Processor};
use crate::processor::walk::{BagReply, Bracket, Reply, Walked};
use crate::protocol::context::{Context, Contexts};
use crate::protocol::contexts::TraceContext;
use crate::protocol::event::Event;
use crate::protocol::exception::Exception;
use crate::protocol::interfaces::{ClientSdkInfo, LogEntry, Request, Values};
use crate::protocol::types::{HeaderName, PairList, Timestamp};
use crate::protocol::user::{Geo, User};
use crate::value::{Array, Object, Value};
use crate::value_type::ValueType;
use vstd::prelude::*;

verus! {

/// A processor that changes nothing and lets every traversal go on to the
/// end. It counts the strings, the sequences and the other nodes that its
/// hooks are shown. A count that has reached the largest number stays there.
#[derive(Clone, Copy, PartialEq, Eq, Structural, Debug)]
pub struct CallCounter {
    /// How often the hook for strings was called.
    pub strings: u64,
    /// How often the hook for sequences was called.
    pub arrays: u64,
    /// How often another hook for a kind of node was called.
    pub others: u64,
}

/// The count after one more call.
pub open spec fn one_more(count: u64) -> u64 {
    if count < u64::MAX {
        (count + 1) as u64
    } else {
        count
    }
}

/// The count after `calls` more calls.
pub open spec fn more(count: u64, calls: nat) -> u64 {
    if count + calls <= u64::MAX {
        (count + calls) as u64
    } else {
        u64::MAX
    }
}

/// The content of a leaf.
pub open spec fn content_of(node: Tree) -> Content {
    match node {
        Tree::Leaf { content, .. } => content,
        _ => Content::Atom(0),
    }
}

impl CallCounter {
    /// A counter that has counted nothing.
    pub fn new() -> (r: CallCounter)
        ensures
            r == (CallCounter { strings: 0, arrays: 0, others: 0 }),
    {
        CallCounter { strings: 0, arrays: 0, others: 0 }
    }

    /// The counter after a call of the hook `hook`.
    pub open spec fn counted(self, hook: Hook) -> CallCounter {
        match hook {
            Hook::String => CallCounter { strings: one_more(self.strings), ..self },
            Hook::Array => CallCounter { arrays: one_more(self.arrays), ..self },
            _ => CallCounter { others: one_more(self.others), ..self },
        }
    }

    fn count(&mut self, hook: Hook)
        ensures
            *final(self) == old(self).counted(hook),
    {
        match hook {
            Hook::String => {
                self.strings = self.strings.saturating_add(1);
            },
            Hook::Array => {
                self.arrays = self.arrays.saturating_add(1);
            },
            _ => {
                self.others = self.others.saturating_add(1);
            },
        }
    }
}

impl Processor for CallCounter {
    open spec fn on(self, hook: Hook, node: Tree, meta: MetaView, state: StateView) -> Reply<
        CallCounter,
    > {
        Reply {
            processor: self.counted(hook),
            content: content_of(node),
            meta,
            result: Ok(Descent::Recurse),
        }
    }

    open spec fn around(
        self,
        after: bool,
        node: Option<Tree>,
        meta: MetaView,
        state: StateView,
    ) -> Bracket<CallCounter> {
        Bracket { processor: self, meta, result: Ok(()) }
    }

    open spec fn on_other(self, entries: Seq<Child>, state: StateView) -> BagReply<CallCounter> {
        BagReply { processor: self, result: Ok(Descent::Recurse) }
    }

    fn before_process<T: Node>(
        &mut self,
        value: Option<&T>,
        meta: &mut Meta,
        state: &ProcessingState<'_>,
    ) -> (r: ProcessingResult) {
        Ok(())
    }

    fn after_process<T: Node>(
        &mut self,
        value: Option<&T>,
        meta: &mut Meta,
        state: &ProcessingState<'_>,
    ) -> (r: ProcessingResult) {
        Ok(())
    }

    fn process_string(
        &mut self,
        value: &mut String,
        meta: &mut Meta,
        state: &ProcessingState<'_>,
    ) -> (r: ProcessingResult) {
        self.count(Hook::String);
        Ok(())
    }

    fn process_u64(
        &mut self,
        value: &mut u64,
        meta: &mut Meta,
        state: &ProcessingState<'_>,
    ) -> (r: ProcessingResult) {
        self.count(Hook::U64);
        Ok(())
    }

    fn process_i64(
        &mut self,
        value: &mut i64,
        meta: &mut Meta,
        state: &ProcessingState<'_>,
    ) -> (r: ProcessingResult) {
        self.count(Hook::I64);
        Ok(())
    }

    fn process_finite_f64(
        &mut self,
        value: &mut FiniteF64,
        meta: &mut Meta,
        state: &ProcessingState<'_>,
    ) -> (r: ProcessingResult) {
        self.count(Hook::F64);
        Ok(())
    }

    fn process_bool(
        &mut self,
        value: &mut bool,
        meta: &mut Meta,
        state: &ProcessingState<'_>,
    ) -> (r: ProcessingResult) {
        self.count(Hook::Bool);
        Ok(())
    }

    fn process_timestamp(
        &mut self,
        value: &mut Timestamp,
        meta: &mut Meta,
        state: &ProcessingState<'_>,
    ) -> (r: ProcessingResult) {
        self.count(Hook::Timestamp);
        Ok(())
    }

    fn process_value(
        &mut self,
        value: &Value,
        meta: &mut Meta,
        state: &ProcessingState<'_>,
    ) -> (r: ProcessingResult) {
        self.count(Hook::Value);
        Ok(())
    }

    fn process_header_name(
        &mut self,
        value: &HeaderName,
        meta: &mut Meta,
        state: &ProcessingState<'_>,
    ) -> (r: ProcessingResult) {
        self.count(Hook::HeaderName);
        Ok(())
    }

    fn process_event(
        &mut self,
        value: &Event,
        meta: &mut Meta,
        state: &ProcessingState<'_>,
    ) -> (r: HookResult) {
        self.count(Hook::Event);
        Ok(Descent::Recurse)
    }

    fn process_exception(
        &mut self,
        value: &Exception,
        meta: &mut Meta,
        state: &ProcessingState<'_>,
    ) -> (r: HookResult) {
        self.count(Hook::Exception);
        Ok(Descent::Recurse)
    }

    fn process_user(
        &mut self,
        value: &User,
        meta: &mut Meta,
        state: &ProcessingState<'_>,
    ) -> (r: HookResult) {
        self.count(Hook::User);
        Ok(Descent::Recurse)
    }

    fn process_geo(
        &mut self,
        value: &Geo,
        meta: &mut Meta,
        state: &ProcessingState<'_>,
    ) -> (r: HookResult) {
        self.count(Hook::Geo);
        Ok(Descent::Recurse)
    }

    fn process_request(
        &mut self,
        value: &Request,
        meta: &mut Meta,
        state: &ProcessingState<'_>,
    ) -> (r: HookResult) {
        self.count(Hook::Request);
        Ok(Descent::Recurse)
    }

    fn process_client_sdk_info(
        &mut self,
        value: &ClientSdkInfo,
        meta: &mut Meta,
        state: &ProcessingState<'_>,
    ) -> (r: HookResult) {
        self.count(Hook::ClientSdkInfo);
        Ok(Descent::Recurse)
    }

    fn process_logentry(
        &mut self,
        value: &LogEntry,
        meta: &mut Meta,
        state: &ProcessingState<'_>,
    ) -> (r: HookResult) {
        self.count(Hook::LogEntry);
        Ok(Descent::Recurse)
    }

    fn process_context(
        &mut self,
        value: &Context,
        meta: &mut Meta,
        state: &ProcessingState<'_>,
    ) -> (r: ProcessingResult) {
        self.count(Hook::Context);
        Ok(())
    }

    fn process_contexts(
        &mut self,
        value: &Contexts,
        meta: &mut Meta,
        state: &ProcessingState<'_>,
    ) -> (r: ProcessingResult) {
        self.count(Hook::Contexts);
        Ok(())
    }

    fn process_trace_context(
        &mut self,
        value: &TraceContext,
        meta: &mut Meta,
        state: &ProcessingState<'_>,
    ) -> (r: HookResult) {
        self.count(Hook::TraceContext);
        Ok(Descent::Recurse)
    }

    fn process_array<T: Node>(
        &mut self,
        value: &Array<T>,
        meta: &mut Meta,
        state: &ProcessingState<'_>,
    ) -> (r: HookResult) {
        self.count(Hook::Array);
        Ok(Descent::Recurse)
    }

    fn process_object<T: Node>(
        &mut self,
        value: &Object<T>,
        meta: &mut Meta,
        state: &ProcessingState<'_>,
    ) -> (r: HookResult) {
        self.count(Hook::Object);
        Ok(Descent::Recurse)
    }

    fn process_pairlist<T: Node>(
        &mut self,
        value: &PairList<T>,
        meta: &mut Meta,
        state: &ProcessingState<'_>,
    ) -> (r: HookResult) {
        self.count(Hook::PairList);
        Ok(Descent::Recurse)
    }

    fn process_values<T: Node>(
        &mut self,
        value: &Values<T>,
        meta: &mut Meta,
        state: &ProcessingState<'_>,
    ) -> (r: HookResult) {
        self.count(Hook::Values);
        Ok(Descent::Recurse)
    }

    fn process_other(&mut self, other: &Object<Value>, state: &ProcessingState<'_>) -> (r:
        HookResult) {
        Ok(Descent::Recurse)
    }
}

/// A child of a sequence that is a present string.
pub open spec fn is_string(child: Child) -> bool {
    child.slot.value matches Some(
        Tree::Leaf { hook: Some(Hook::String), content: Content::Text(_), .. },
    )
}

/// The counter after `calls` more strings.
pub open spec fn with_strings(counter: CallCounter, calls: nat) -> CallCounter {
    CallCounter { strings: more(counter.strings, calls), ..counter }
}

/// The traversal of the children of a sequence of present strings calls the
/// hook for strings once for each of them and no other hook that counts: the
/// strings stay as they are, the count of strings grows by the number of
/// children that were still to visit, and the other counts stay.
pub proof fn lemma_counts_each_string_once(
    counter: CallCounter,
    orig: Seq<Child>,
    acc: Seq<Child>,
    from: int,
    state: StateView,
)
    requires
        0 <= from <= orig.len(),
        acc.len() == orig.len(),
        forall|j: int| 0 <= j < orig.len() ==> is_string(#[trigger] orig[j]),
        forall|j: int| from <= j < orig.len() ==> acc[j] == orig[j],
    ensures
        crate::processor::walk::visit_from(counter, orig, acc, from, state) == (Walked {
            processor: with_strings(counter, (orig.len() - from) as nat),
            children: acc,
            result: Ok(()),
        }),
    decreases orig.len() - from,
{
    if from < orig.len() {
        let child = orig[from];
        assert(is_string(child));
        let at = crate::processor::walk::child_state(state, child);
        let shown = crate::processor::walk::visit_bracketed(
            counter,
            child.slot.value->0,
            child.slot.meta,
            at,
        );
        assert(shown.processor == counter.counted(Hook::String));
        assert(shown.tree == child.slot.value->0);
        let seen = crate::processor::walk::visit_slot(counter, child.slot, at);
        assert(seen.slot == child.slot);
        assert(acc.update(from, Child { slot: seen.slot, ..child }) =~= acc);
        lemma_counts_each_string_once(seen.processor, orig, acc, from + 1, state);
    }
}

/// Two strings in a sequence: the traversal of its children calls the hook
/// for strings twice and the hook for sequences not at all.
pub proof fn lemma_two_strings(counter: CallCounter, first: Child, second: Child, state: StateView)
    requires
        is_string(first),
        is_string(second),
    ensures
        ({
            let tree = Tree::Branch {
                hook: Some(Hook::Array),
                kind: set![ValueType::Array],
                children: seq![first, second],
                bag: None,
            };
            let below = crate::processor::walk::visit_children(counter, tree, state);
            &&& below.result is Ok
            &&& below.tree == tree
            &&& below.processor.strings == more(counter.strings, 2)
            &&& below.processor.arrays == counter.arrays
            &&& below.processor.others == counter.others
        }),
{
    let children = seq![first, second];
    lemma_counts_each_string_once(counter, children, children, 0, state);
}

} // verus!
