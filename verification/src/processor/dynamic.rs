//! Untyped values as values that can be processed.
//!
//! An untyped value is shown to the hook for untyped values first. Then what
//! it holds is shown to the hook of its own kind, between the two bracketing
//! hooks, in a state that adds nothing to the path: a sequence inside an
//! untyped value numbers its elements from the place of the untyped value.

use crate::annotated::Annotated;
use crate::meta::Meta;
use crate::processor::action::{settled, Descent, ProcessingResult};
use crate::processor::impls::{entries_of, items_of};
use crate::processor::model::{Child, Tree};
use crate::processor::state::ProcessingState;
use crate::processor::traits::{ProcessValue, Processor};
use crate::processor::walk::{SlotVisited, Visited, Walked};
use crate::value::{Array, Object, Value};
use crate::value_type::{ValueType, ValueTypeSet};
use vstd::prelude::*;

verus! {

/// The model of what an untyped value holds is the model of the sequence or
/// of the map that it holds.
pub proof fn lemma_value_inner(value: Value)
    ensures
        value matches Value::Array(items) ==> crate::value::value_inner(value)
            == crate::processor::traits::Node::tree(&items),
        value matches Value::Object(object) ==> crate::value::value_inner(value)
            == crate::processor::traits::Node::tree(&object),
{
    match value {
        Value::Array(items) => {
            assert(crate::value::value_inner(value)->Branch_children =~= items_of(items@));
        },
        Value::Object(object) => {
            assert(crate::value::value_inner(value)->Branch_children =~= entries_of(object@));
        },
        _ => {},
    }
}

fn kind_of(value: &Value) -> (r: ValueTypeSet)
    ensures
        r@ == crate::value::value_tree(*value).kind(),
{
    proof {
        reveal_with_fuel(Tree::kind, 2);
    }
    match value {
        Value::Bool(_) => ValueTypeSet::only(ValueType::Boolean),
        Value::I64(_) => ValueTypeSet::only(ValueType::Number),
        Value::U64(_) => ValueTypeSet::only(ValueType::Number),
        Value::F64(_) => ValueTypeSet::only(ValueType::Number),
        Value::String(_) => ValueTypeSet::only(ValueType::String),
        Value::Array(_) => ValueTypeSet::only(ValueType::Array),
        Value::Object(_) => ValueTypeSet::only(ValueType::Object),
    }
}

fn kind_of_slot(annotated: &Annotated<Value>) -> (r: ValueTypeSet)
    ensures
        r@ == crate::value::value_slot(*annotated).kind(),
{
    match &annotated.0 {
        Some(value) => kind_of(value),
        None => ValueTypeSet::empty(),
    }
}

/// Shows a sequence of untyped values to a processor.
fn walk_array<P: Processor>(
    items: &mut Array<Value>,
    meta: &mut Meta,
    processor: &mut P,
    state: &ProcessingState<'_>,
) -> (r: ProcessingResult)
    ensures
        (Visited {
            processor: *final(processor),
            tree: crate::processor::traits::Node::tree(final(items)),
            meta: crate::value::meta_view(*final(meta)),
            result: r,
        }) == crate::processor::walk::visit_tree(
            *old(processor),
            crate::processor::traits::Node::tree(old(items)),
            crate::value::meta_view(*old(meta)),
            state@,
        ),
    decreases *old(items), 1int,
{
    let ghost whole = crate::processor::traits::Node::tree(items);
    match processor.process_array(&*items, meta, state) {
        Ok(Descent::Recurse) => {
            let ghost asked = *processor;
            let r = walk_items(items, processor, state);
            proof {
                let below = crate::processor::walk::visit_children(asked, whole, state@);
                assert(below.tree == crate::processor::traits::Node::tree(items));
            }
            r
        },
        answer => settled(answer),
    }
}

/// Shows a map of untyped values to a processor.
fn walk_object<P: Processor>(
    object: &mut Object<Value>,
    meta: &mut Meta,
    processor: &mut P,
    state: &ProcessingState<'_>,
) -> (r: ProcessingResult)
    ensures
        (Visited {
            processor: *final(processor),
            tree: crate::processor::traits::Node::tree(final(object)),
            meta: crate::value::meta_view(*final(meta)),
            result: r,
        }) == crate::processor::walk::visit_tree(
            *old(processor),
            crate::processor::traits::Node::tree(old(object)),
            crate::value::meta_view(*old(meta)),
            state@,
        ),
    decreases *old(object), 1int,
{
    let ghost whole = crate::processor::traits::Node::tree(object);
    match processor.process_object(&*object, meta, state) {
        Ok(Descent::Recurse) => {
            let ghost asked = *processor;
            let r = walk_entries(object, processor, state);
            proof {
                let below = crate::processor::walk::visit_children(asked, whole, state@);
                assert(below.tree == crate::processor::traits::Node::tree(object));
            }
            r
        },
        answer => settled(answer),
    }
}

/// Shows what an untyped value holds to the hook of its kind.
fn walk_inner<P: Processor>(
    value: &mut Value,
    meta: &mut Meta,
    processor: &mut P,
    state: &ProcessingState<'_>,
) -> (r: ProcessingResult)
    ensures
        (Visited {
            processor: *final(processor),
            tree: crate::value::value_inner(*final(value)),
            meta: crate::value::meta_view(*final(meta)),
            result: r,
        }) == crate::processor::walk::visit_tree(
            *old(processor),
            crate::value::value_inner(*old(value)),
            crate::value::meta_view(*old(meta)),
            state@,
        ),
    decreases *old(value), 2int,
{
    proof {
        lemma_value_inner(*value);
    }
    match value {
        Value::Bool(v) => processor.process_bool(v, meta, state),
        Value::I64(v) => processor.process_i64(v, meta, state),
        Value::U64(v) => processor.process_u64(v, meta, state),
        Value::F64(v) => processor.process_finite_f64(v, meta, state),
        Value::String(v) => processor.process_string(v, meta, state),
        Value::Array(items) => {
            let r = walk_array(items, meta, processor, state);
            proof {
                lemma_value_inner(Value::Array(*items));
            }
            r
        },
        Value::Object(object) => {
            let r = walk_object(object, meta, processor, state);
            proof {
                lemma_value_inner(Value::Object(*object));
            }
            r
        },
    }
}

fn before_inner<P: Processor>(
    value: &Value,
    meta: &mut Meta,
    processor: &mut P,
    state: &ProcessingState<'_>,
    after: bool,
) -> (r: ProcessingResult)
    ensures
        (crate::processor::walk::Bracket {
            processor: *final(processor),
            meta: crate::value::meta_view(*final(meta)),
            result: r,
        }) == old(processor).around(
            after,
            Some(crate::value::value_inner(*value)),
            crate::value::meta_view(*old(meta)),
            state@,
        ),
{
    proof {
        lemma_value_inner(*value);
    }
    if after {
        match value {
            Value::Bool(v) => processor.after_process(Some(v), meta, state),
            Value::I64(v) => processor.after_process(Some(v), meta, state),
            Value::U64(v) => processor.after_process(Some(v), meta, state),
            Value::F64(v) => processor.after_process(Some(v), meta, state),
            Value::String(v) => processor.after_process(Some(v), meta, state),
            Value::Array(v) => processor.after_process(Some(v), meta, state),
            Value::Object(v) => processor.after_process(Some(v), meta, state),
        }
    } else {
        match value {
            Value::Bool(v) => processor.before_process(Some(v), meta, state),
            Value::I64(v) => processor.before_process(Some(v), meta, state),
            Value::U64(v) => processor.before_process(Some(v), meta, state),
            Value::F64(v) => processor.before_process(Some(v), meta, state),
            Value::String(v) => processor.before_process(Some(v), meta, state),
            Value::Array(v) => processor.before_process(Some(v), meta, state),
            Value::Object(v) => processor.before_process(Some(v), meta, state),
        }
    }
}

/// Shows an untyped value to a processor.
pub fn walk_value<P: Processor>(
    value: &mut Value,
    meta: &mut Meta,
    processor: &mut P,
    state: &ProcessingState<'_>,
) -> (r: ProcessingResult)
    ensures
        (Visited {
            processor: *final(processor),
            tree: crate::value::value_tree(*final(value)),
            meta: crate::value::meta_view(*final(meta)),
            result: r,
        }) == crate::processor::walk::visit_tree(
            *old(processor),
            crate::value::value_tree(*old(value)),
            crate::value::meta_view(*old(meta)),
            state@,
        ),
    decreases *old(value), 3int,
{
    let ghost v0 = *value;
    processor.process_value(&*value, meta, state)?;
    let attrs = state.attrs();
    let inner = state.enter_nothing(Some(attrs));
    let ghost held = crate::processor::walk::visit_bracketed(
        *processor,
        crate::value::value_inner(v0),
        crate::value::meta_view(*meta),
        inner@,
    );
    let r = before_inner(&*value, meta, processor, &inner, false);
    if r.is_err() {
        assert(held.result == r);
        return r;
    }
    let r = walk_inner(value, meta, processor, &inner);
    if r.is_err() {
        assert(held.result == r);
        return r;
    }
    let r = before_inner(&*value, meta, processor, &inner, true);
    assert(held.result == r);
    r
}

/// Processes an annotated untyped value.
pub fn walk_slot<P: Processor>(
    annotated: &mut Annotated<Value>,
    processor: &mut P,
    state: &ProcessingState<'_>,
) -> (r: ProcessingResult)
    ensures
        (SlotVisited {
            processor: *final(processor),
            slot: crate::value::value_slot(*final(annotated)),
            result: r,
        }) == crate::processor::walk::visit_slot(
            *old(processor),
            crate::value::value_slot(*old(annotated)),
            state@,
        ),
    decreases *old(annotated), 4int,
{
    processor.before_process(annotated.0.as_ref(), &mut annotated.1, state)?;
    match &mut annotated.0 {
        Some(value) => {
            walk_value(value, &mut annotated.1, processor, state)?;
        },
        None => {},
    }
    processor.after_process(annotated.0.as_ref(), &mut annotated.1, state)
}

/// Processes the elements of a sequence of untyped values, in order.
fn walk_items<P: Processor>(
    items: &mut Array<Value>,
    processor: &mut P,
    state: &ProcessingState<'_>,
) -> (r: ProcessingResult)
    ensures
        (Walked { processor: *final(processor), children: items_of(final(items)@), result: r })
            == crate::processor::walk::visit_from(
            *old(processor),
            items_of(old(items)@),
            items_of(old(items)@),
            0,
            state@,
        ),
    decreases *old(items), 0int,
{
    let ghost orig = items_of(items@);
    let ghost first = *processor;
    let n = items.len();
    let mut i: usize = 0;
    while i < n
        invariant
            items.len() == n,
            i <= n,
            orig == items_of(old(items)@),
            first == *old(processor),
            orig.len() == n,
            forall|j: int| i <= j < n ==> (#[trigger] items@[j]) == old(items)@[j],
            forall|j: int| i <= j < n ==> (#[trigger] items_of(items@)[j]) == orig[j],
            crate::processor::walk::visit_from(first, orig, orig, 0, state@)
                == crate::processor::walk::visit_from(
                *processor,
                orig,
                items_of(items@),
                i as int,
                state@,
            ),
        decreases n - i,
    {
        let ghost before = items_of(items@);
        let ghost held = items@;
        assert(orig[i as int] == before[i as int]);
        assert(items@[i as int] == old(items)@[i as int]);
        let kind = kind_of_slot(&items[i]);
        let child = state.enter_index(i, None, kind);
        let r = walk_slot(&mut items[i], processor, &child);
        assert(forall|j: int| i < j < n ==> (#[trigger] items@[j]) == held[j]);
        assert(items_of(items@) =~= before.update(
            i as int,
            Child { slot: crate::processor::traits::slot_of(items@[i as int]), ..orig[i as int] },
        ));
        if r.is_err() {
            return r;
        }
        i += 1;
    }
    Ok(())
}

/// Processes the entries of a map of untyped values, in order.
fn walk_entries<P: Processor>(
    object: &mut Object<Value>,
    processor: &mut P,
    state: &ProcessingState<'_>,
) -> (r: ProcessingResult)
    ensures
        (Walked { processor: *final(processor), children: entries_of(final(object)@), result: r })
            == crate::processor::walk::visit_from(
            *old(processor),
            entries_of(old(object)@),
            entries_of(old(object)@),
            0,
            state@,
        ),
    decreases *old(object), 0int,
{
    let ghost orig = entries_of(object@);
    let ghost first = *processor;
    let n = object.entries.len();
    let mut i: usize = 0;
    while i < n
        invariant
            object.entries.len() == n,
            i <= n,
            orig == entries_of(old(object)@),
            first == *old(processor),
            orig.len() == n,
            forall|j: int| i <= j < n ==> (#[trigger] object@[j]) == old(object)@[j],
            forall|j: int| i <= j < n ==> (#[trigger] entries_of(object@)[j]) == orig[j],
            crate::processor::walk::visit_from(first, orig, orig, 0, state@)
                == crate::processor::walk::visit_from(
                *processor,
                orig,
                entries_of(object@),
                i as int,
                state@,
            ),
        decreases n - i,
    {
        let ghost before = entries_of(object@);
        let ghost held = object@;
        assert(orig[i as int] == before[i as int]);
        assert(object@[i as int] == old(object)@[i as int]);
        let entry = &mut object.entries[i];
        let kind = kind_of_slot(&entry.1);
        let child = state.enter_borrowed(entry.0.as_str(), None, kind);
        let r = walk_slot(&mut entry.1, processor, &child);
        assert(forall|j: int| i < j < n ==> (#[trigger] object@[j]) == held[j]);
        assert(entries_of(object@) =~= before.update(
            i as int,
            Child {
                slot: crate::processor::traits::slot_of(object@[i as int].1),
                ..orig[i as int]
            },
        ));
        if r.is_err() {
            return r;
        }
        i += 1;
    }
    Ok(())
}

impl ProcessValue for Value {
    fn value_type(&self) -> (r: ValueTypeSet) {
        kind_of(self)
    }

    fn process_value<P: Processor>(
        &mut self,
        meta: &mut Meta,
        processor: &mut P,
        state: &ProcessingState<'_>,
    ) -> (r: ProcessingResult) {
        walk_value(self, meta, processor, state)
    }

    fn process_child_values<P: Processor>(
        &mut self,
        processor: &mut P,
        state: &ProcessingState<'_>,
    ) -> (r: ProcessingResult) {
        Ok(())
    }
}

} // verus!
