//! The two contracts of the engine: what a processor is, and what a value
//! that can be processed is.

use crate::annotated::Annotated;
use crate::meta::Meta;
use crate::number::FiniteF64;
use crate::processor::action::{HookResult, ProcessingResult};
use crate::processor::model::{Child, Content, Hook, MetaView, Slot, Tree};
use crate::processor::state::{ProcessingState, StateView};
use crate::processor::walk::{BagReply, Bracket, Descended, Reply, Visited};
use crate::protocol::context::{Context, Contexts};
use crate::protocol::contexts::TraceContext;
use crate::protocol::event::Event;
use crate::protocol::exception::Exception;
use crate::protocol::interfaces::{ClientSdkInfo, LogEntry, Request, Values};
use crate::protocol::types::{HeaderName, PairList, Timestamp};
use crate::protocol::user::{Geo, User};
use crate::value::{Array, Object, Value};
use crate::value_type::ValueTypeSet;
use vstd::prelude::*;

verus! {

/// A value that has a model.
pub trait Node: Sized {
    /// The model of the value.
    spec fn tree(&self) -> Tree;
}

/// The model of a value that may be absent.
pub open spec fn tree_of<T: Node>(value: Option<&T>) -> Option<Tree> {
    match value {
        Some(v) => Some(v.tree()),
        None => None,
    }
}

/// The model of an annotated value.
pub open spec fn slot_of<T: Node>(annotated: Annotated<T>) -> Slot {
    Slot {
        value: match annotated.0 {
            Some(v) => Some(v.tree()),
            None => None,
        },
        meta: crate::value::meta_view(annotated.1),
    }
}

/// A processor: a set of hooks, one for each kind of node, that the engine
/// calls as it walks a tree.
///
/// Every hook is a function of the processor and of what it is shown. The
/// three functions `on`, `around` and `on_other` name the answers; the
/// contract of each hook says which of them it computes, and nothing else. A
/// hook for a leaf may change the leaf. A hook for any other node sees the
/// node and may change its metadata. The answer of a hook for a sequence, a
/// map or a struct says whether the engine goes on to the children. After a
/// hook for an untyped value or for a type that wraps one value, the engine
/// always shows what the value holds, unless the hook ends the traversal.
pub trait Processor: Sized {
    /// The answer of the hook `hook` to the node `node`. A processor that is
    /// to be reasoned about says here what its hooks answer. Of one that says
    /// nothing, only this is known: the answer is some function of the
    /// processor and of what the hook is shown.
    open spec fn on(self, hook: Hook, node: Tree, meta: MetaView, state: StateView) -> Reply<Self> {
        let answer = arbitrary::<spec_fn(Self, Hook, Tree, MetaView, StateView) -> Reply<Self>>();
        answer(self, hook, node, meta, state)
    }

    /// The answer of `before_process`, or of `after_process` where `after`
    /// holds, to the value `node`.
    open spec fn around(
        self,
        after: bool,
        node: Option<Tree>,
        meta: MetaView,
        state: StateView,
    ) -> Bracket<Self> {
        let answer = arbitrary::<
            spec_fn(Self, bool, Option<Tree>, MetaView, StateView) -> Bracket<Self>,
        >();
        answer(self, after, node, meta, state)
    }

    /// The answer of `process_other` to the entries of an open bag.
    open spec fn on_other(self, entries: Seq<Child>, state: StateView) -> BagReply<Self> {
        let answer = arbitrary::<spec_fn(Self, Seq<Child>, StateView) -> BagReply<Self>>();
        answer(self, entries, state)
    }

    /// Called before a value is shown to the hook of its kind.
    fn before_process<T: Node>(
        &mut self,
        value: Option<&T>,
        meta: &mut Meta,
        state: &ProcessingState<'_>,
    ) -> (r: ProcessingResult)
        ensures
            (Bracket {
                processor: *final(self),
                meta: crate::value::meta_view(*final(meta)),
                result: r,
            }) == old(self).around(
                false,
                tree_of(value),
                crate::value::meta_view(*old(meta)),
                state@,
            ),
    ;

    /// Called after a value was shown to the hook of its kind and its children
    /// were visited.
    fn after_process<T: Node>(
        &mut self,
        value: Option<&T>,
        meta: &mut Meta,
        state: &ProcessingState<'_>,
    ) -> (r: ProcessingResult)
        ensures
            (Bracket {
                processor: *final(self),
                meta: crate::value::meta_view(*final(meta)),
                result: r,
            }) == old(self).around(
                true,
                tree_of(value),
                crate::value::meta_view(*old(meta)),
                state@,
            ),
    ;

    fn process_string(
        &mut self,
        value: &mut String,
        meta: &mut Meta,
        state: &ProcessingState<'_>,
    ) -> (r: ProcessingResult)
        ensures
            crate::processor::walk::leaf_answer(
                old(self).on(
                    Hook::String,
                    old(value).tree(),
                    crate::value::meta_view(*old(meta)),
                    state@,
                ),
                *final(self),
                Content::Text(final(value)@),
                crate::value::meta_view(*final(meta)),
                r,
            ),
    ;

    fn process_u64(
        &mut self,
        value: &mut u64,
        meta: &mut Meta,
        state: &ProcessingState<'_>,
    ) -> (r: ProcessingResult)
        ensures
            crate::processor::walk::leaf_answer(
                old(self).on(
                    Hook::U64,
                    old(value).tree(),
                    crate::value::meta_view(*old(meta)),
                    state@,
                ),
                *final(self),
                Content::U64(*final(value)),
                crate::value::meta_view(*final(meta)),
                r,
            ),
    ;

    fn process_i64(
        &mut self,
        value: &mut i64,
        meta: &mut Meta,
        state: &ProcessingState<'_>,
    ) -> (r: ProcessingResult)
        ensures
            crate::processor::walk::leaf_answer(
                old(self).on(
                    Hook::I64,
                    old(value).tree(),
                    crate::value::meta_view(*old(meta)),
                    state@,
                ),
                *final(self),
                Content::I64(*final(value)),
                crate::value::meta_view(*final(meta)),
                r,
            ),
    ;

    fn process_finite_f64(
        &mut self,
        value: &mut FiniteF64,
        meta: &mut Meta,
        state: &ProcessingState<'_>,
    ) -> (r: ProcessingResult)
        ensures
            crate::processor::walk::leaf_answer(
                old(self).on(
                    Hook::F64,
                    old(value).tree(),
                    crate::value::meta_view(*old(meta)),
                    state@,
                ),
                *final(self),
                Content::F64(final(value)@),
                crate::value::meta_view(*final(meta)),
                r,
            ),
    ;

    fn process_bool(
        &mut self,
        value: &mut bool,
        meta: &mut Meta,
        state: &ProcessingState<'_>,
    ) -> (r: ProcessingResult)
        ensures
            crate::processor::walk::leaf_answer(
                old(self).on(
                    Hook::Bool,
                    old(value).tree(),
                    crate::value::meta_view(*old(meta)),
                    state@,
                ),
                *final(self),
                Content::Bool(*final(value)),
                crate::value::meta_view(*final(meta)),
                r,
            ),
    ;

    fn process_value(
        &mut self,
        value: &Value,
        meta: &mut Meta,
        state: &ProcessingState<'_>,
    ) -> (r: ProcessingResult)
        ensures
            crate::processor::walk::wrapper_answer(
                old(self).on(
                    Hook::Value,
                    value.tree(),
                    crate::value::meta_view(*old(meta)),
                    state@,
                ),
                *final(self),
                crate::value::meta_view(*final(meta)),
                r,
            ),
    ;

    fn process_array<T: Node>(
        &mut self,
        value: &Array<T>,
        meta: &mut Meta,
        state: &ProcessingState<'_>,
    ) -> (r: HookResult)
        ensures
            crate::processor::walk::node_answer(
                old(self).on(
                    Hook::Array,
                    value.tree(),
                    crate::value::meta_view(*old(meta)),
                    state@,
                ),
                *final(self),
                crate::value::meta_view(*final(meta)),
                r,
            ),
    ;

    fn process_object<T: Node>(
        &mut self,
        value: &Object<T>,
        meta: &mut Meta,
        state: &ProcessingState<'_>,
    ) -> (r: HookResult)
        ensures
            crate::processor::walk::node_answer(
                old(self).on(
                    Hook::Object,
                    value.tree(),
                    crate::value::meta_view(*old(meta)),
                    state@,
                ),
                *final(self),
                crate::value::meta_view(*final(meta)),
                r,
            ),
    ;

    fn process_header_name(
        &mut self,
        value: &HeaderName,
        meta: &mut Meta,
        state: &ProcessingState<'_>,
    ) -> (r: ProcessingResult)
        ensures
            crate::processor::walk::wrapper_answer(
                old(self).on(
                    Hook::HeaderName,
                    value.tree(),
                    crate::value::meta_view(*old(meta)),
                    state@,
                ),
                *final(self),
                crate::value::meta_view(*final(meta)),
                r,
            ),
    ;

    fn process_timestamp(
        &mut self,
        value: &mut Timestamp,
        meta: &mut Meta,
        state: &ProcessingState<'_>,
    ) -> (r: ProcessingResult)
        ensures
            crate::processor::walk::leaf_answer(
                old(self).on(
                    Hook::Timestamp,
                    old(value).tree(),
                    crate::value::meta_view(*old(meta)),
                    state@,
                ),
                *final(self),
                Content::Atom(final(value).total_nanos()),
                crate::value::meta_view(*final(meta)),
                r,
            ),
    ;

    fn process_pairlist<T: Node>(
        &mut self,
        value: &PairList<T>,
        meta: &mut Meta,
        state: &ProcessingState<'_>,
    ) -> (r: HookResult)
        ensures
            crate::processor::walk::node_answer(
                old(self).on(
                    Hook::PairList,
                    value.tree(),
                    crate::value::meta_view(*old(meta)),
                    state@,
                ),
                *final(self),
                crate::value::meta_view(*final(meta)),
                r,
            ),
    ;

    fn process_values<T: Node>(
        &mut self,
        value: &Values<T>,
        meta: &mut Meta,
        state: &ProcessingState<'_>,
    ) -> (r: HookResult)
        ensures
            crate::processor::walk::node_answer(
                old(self).on(
                    Hook::Values,
                    value.tree(),
                    crate::value::meta_view(*old(meta)),
                    state@,
                ),
                *final(self),
                crate::value::meta_view(*final(meta)),
                r,
            ),
    ;

    fn process_event(
        &mut self,
        value: &Event,
        meta: &mut Meta,
        state: &ProcessingState<'_>,
    ) -> (r: HookResult)
        ensures
            crate::processor::walk::node_answer(
                old(self).on(
                    Hook::Event,
                    value.tree(),
                    crate::value::meta_view(*old(meta)),
                    state@,
                ),
                *final(self),
                crate::value::meta_view(*final(meta)),
                r,
            ),
    ;

    fn process_exception(
        &mut self,
        value: &Exception,
        meta: &mut Meta,
        state: &ProcessingState<'_>,
    ) -> (r: HookResult)
        ensures
            crate::processor::walk::node_answer(
                old(self).on(
                    Hook::Exception,
                    value.tree(),
                    crate::value::meta_view(*old(meta)),
                    state@,
                ),
                *final(self),
                crate::value::meta_view(*final(meta)),
                r,
            ),
    ;

    fn process_user(
        &mut self,
        value: &User,
        meta: &mut Meta,
        state: &ProcessingState<'_>,
    ) -> (r: HookResult)
        ensures
            crate::processor::walk::node_answer(
                old(self).on(
                    Hook::User,
                    value.tree(),
                    crate::value::meta_view(*old(meta)),
                    state@,
                ),
                *final(self),
                crate::value::meta_view(*final(meta)),
                r,
            ),
    ;

    fn process_geo(
        &mut self,
        value: &Geo,
        meta: &mut Meta,
        state: &ProcessingState<'_>,
    ) -> (r: HookResult)
        ensures
            crate::processor::walk::node_answer(
                old(self).on(
                    Hook::Geo,
                    value.tree(),
                    crate::value::meta_view(*old(meta)),
                    state@,
                ),
                *final(self),
                crate::value::meta_view(*final(meta)),
                r,
            ),
    ;

    fn process_request(
        &mut self,
        value: &Request,
        meta: &mut Meta,
        state: &ProcessingState<'_>,
    ) -> (r: HookResult)
        ensures
            crate::processor::walk::node_answer(
                old(self).on(
                    Hook::Request,
                    value.tree(),
                    crate::value::meta_view(*old(meta)),
                    state@,
                ),
                *final(self),
                crate::value::meta_view(*final(meta)),
                r,
            ),
    ;

    fn process_client_sdk_info(
        &mut self,
        value: &ClientSdkInfo,
        meta: &mut Meta,
        state: &ProcessingState<'_>,
    ) -> (r: HookResult)
        ensures
            crate::processor::walk::node_answer(
                old(self).on(
                    Hook::ClientSdkInfo,
                    value.tree(),
                    crate::value::meta_view(*old(meta)),
                    state@,
                ),
                *final(self),
                crate::value::meta_view(*final(meta)),
                r,
            ),
    ;

    fn process_logentry(
        &mut self,
        value: &LogEntry,
        meta: &mut Meta,
        state: &ProcessingState<'_>,
    ) -> (r: HookResult)
        ensures
            crate::processor::walk::node_answer(
                old(self).on(
                    Hook::LogEntry,
                    value.tree(),
                    crate::value::meta_view(*old(meta)),
                    state@,
                ),
                *final(self),
                crate::value::meta_view(*final(meta)),
                r,
            ),
    ;

    fn process_context(
        &mut self,
        value: &Context,
        meta: &mut Meta,
        state: &ProcessingState<'_>,
    ) -> (r: ProcessingResult)
        ensures
            crate::processor::walk::wrapper_answer(
                old(self).on(
                    Hook::Context,
                    value.tree(),
                    crate::value::meta_view(*old(meta)),
                    state@,
                ),
                *final(self),
                crate::value::meta_view(*final(meta)),
                r,
            ),
    ;

    fn process_contexts(
        &mut self,
        value: &Contexts,
        meta: &mut Meta,
        state: &ProcessingState<'_>,
    ) -> (r: ProcessingResult)
        ensures
            crate::processor::walk::wrapper_answer(
                old(self).on(
                    Hook::Contexts,
                    value.tree(),
                    crate::value::meta_view(*old(meta)),
                    state@,
                ),
                *final(self),
                crate::value::meta_view(*final(meta)),
                r,
            ),
    ;

    fn process_trace_context(
        &mut self,
        value: &TraceContext,
        meta: &mut Meta,
        state: &ProcessingState<'_>,
    ) -> (r: HookResult)
        ensures
            crate::processor::walk::node_answer(
                old(self).on(
                    Hook::TraceContext,
                    value.tree(),
                    crate::value::meta_view(*old(meta)),
                    state@,
                ),
                *final(self),
                crate::value::meta_view(*final(meta)),
                r,
            ),
    ;

    /// Called for the open bag of a struct, after its declared fields.
    fn process_other(&mut self, other: &Object<Value>, state: &ProcessingState<'_>) -> (r:
        HookResult)
        ensures
            (BagReply { processor: *final(self), result: r }) == old(self).on_other(
                crate::processor::impls::entries_of(other@),
                state@,
            ),
    ;
}

/// A value that can be processed.
pub trait ProcessValue: Node {
    /// The kinds that the value presents as.
    fn value_type(&self) -> (r: ValueTypeSet)
        ensures
            r@ == self.tree().kind(),
    ;

    /// Shows the value to the processor: calls the hook of its kind, and
    /// visits the children on its word.
    fn process_value<P: Processor>(
        &mut self,
        meta: &mut Meta,
        processor: &mut P,
        state: &ProcessingState<'_>,
    ) -> (r: ProcessingResult)
        ensures
            (Visited {
                processor: *final(processor),
                tree: final(self).tree(),
                meta: crate::value::meta_view(*final(meta)),
                result: r,
            }) == crate::processor::walk::visit_tree(
                *old(processor),
                old(self).tree(),
                crate::value::meta_view(*old(meta)),
                state@,
            ),
    ;

    /// Visits the children of the value, and does not call the hook for the
    /// value itself.
    fn process_child_values<P: Processor>(
        &mut self,
        processor: &mut P,
        state: &ProcessingState<'_>,
    ) -> (r: ProcessingResult)
        ensures
            (Descended { processor: *final(processor), tree: final(self).tree(), result: r })
                == crate::processor::walk::visit_children(
                *old(processor),
                old(self).tree(),
                state@,
            ),
    ;
}

} // verus!
