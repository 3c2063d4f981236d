//! The values of the standard kinds as values that can be processed.

use crate::annotated::Annotated;
use crate::meta::Meta;
use crate::number::FiniteF64;
use crate::processor::action::{settled, Descent, ProcessingResult};
use crate::processor::model::{Child, Content, Hook, Segment, Tree};
use crate::processor::state::ProcessingState;
use crate::processor::traits::{Node, ProcessValue, Processor};
use crate::processor::walk::SlotVisited;
use crate::value::{Array, Object, Value};
use crate::value_type::{ValueType, ValueTypeSet};
use vstd::prelude::*;

verus! {

/// The children of a sequence: each is reached by its position and has the
/// policy of the sequence.
pub open spec fn items_of<T: Node>(items: Seq<Annotated<T>>) -> Seq<Child> {
    Seq::new(
        items.len(),
        |i: int|
            Child {
                segment: Some(Segment::Index(i as nat)),
                attrs: None,
                slot: crate::processor::traits::slot_of(items[i]),
            },
    )
}

/// The children of a map: each is reached by its key and has the policy of
/// the map.
pub open spec fn entries_of<T: Node>(entries: Seq<(String, Annotated<T>)>) -> Seq<Child> {
    Seq::new(
        entries.len(),
        |i: int|
            Child {
                segment: Some(Segment::Key(entries[i].0@)),
                attrs: None,
                slot: crate::processor::traits::slot_of(entries[i].1),
            },
    )
}

impl Node for String {
    open spec fn tree(&self) -> Tree {
        Tree::Leaf {
            hook: Some(Hook::String),
            kind: set![ValueType::String],
            content: Content::Text(self@),
        }
    }
}

impl Node for bool {
    open spec fn tree(&self) -> Tree {
        Tree::Leaf {
            hook: Some(Hook::Bool),
            kind: set![ValueType::Boolean],
            content: Content::Bool(*self),
        }
    }
}

impl Node for u64 {
    open spec fn tree(&self) -> Tree {
        Tree::Leaf {
            hook: Some(Hook::U64),
            kind: set![ValueType::Number],
            content: Content::U64(*self),
        }
    }
}

impl Node for i64 {
    open spec fn tree(&self) -> Tree {
        Tree::Leaf {
            hook: Some(Hook::I64),
            kind: set![ValueType::Number],
            content: Content::I64(*self),
        }
    }
}

impl Node for FiniteF64 {
    open spec fn tree(&self) -> Tree {
        Tree::Leaf {
            hook: Some(Hook::F64),
            kind: set![ValueType::Number],
            content: Content::F64(self@),
        }
    }
}

impl Node for Value {
    open spec fn tree(&self) -> Tree {
        crate::value::value_tree(*self)
    }
}

impl<T: Node> Node for Array<T> {
    open spec fn tree(&self) -> Tree {
        Tree::Branch {
            hook: Some(Hook::Array),
            kind: set![ValueType::Array],
            children: items_of(self@),
            bag: None,
        }
    }
}

impl<T: Node> Node for Object<T> {
    open spec fn tree(&self) -> Tree {
        Tree::Branch {
            hook: Some(Hook::Object),
            kind: set![ValueType::Object],
            children: entries_of(self@),
            bag: None,
        }
    }
}

impl<T: Node> Node for Box<T> {
    open spec fn tree(&self) -> Tree {
        (**self).tree()
    }
}

impl ProcessValue for String {
    fn value_type(&self) -> (r: ValueTypeSet) {
        ValueTypeSet::only(ValueType::String)
    }

    fn process_value<P: Processor>(
        &mut self,
        meta: &mut Meta,
        processor: &mut P,
        state: &ProcessingState<'_>,
    ) -> (r: ProcessingResult) {
        processor.process_string(self, meta, state)
    }

    fn process_child_values<P: Processor>(
        &mut self,
        processor: &mut P,
        state: &ProcessingState<'_>,
    ) -> (r: ProcessingResult) {
        Ok(())
    }
}

impl ProcessValue for bool {
    fn value_type(&self) -> (r: ValueTypeSet) {
        ValueTypeSet::only(ValueType::Boolean)
    }

    fn process_value<P: Processor>(
        &mut self,
        meta: &mut Meta,
        processor: &mut P,
        state: &ProcessingState<'_>,
    ) -> (r: ProcessingResult) {
        processor.process_bool(self, meta, state)
    }

    fn process_child_values<P: Processor>(
        &mut self,
        processor: &mut P,
        state: &ProcessingState<'_>,
    ) -> (r: ProcessingResult) {
        Ok(())
    }
}

impl ProcessValue for u64 {
    fn value_type(&self) -> (r: ValueTypeSet) {
        ValueTypeSet::only(ValueType::Number)
    }

    fn process_value<P: Processor>(
        &mut self,
        meta: &mut Meta,
        processor: &mut P,
        state: &ProcessingState<'_>,
    ) -> (r: ProcessingResult) {
        processor.process_u64(self, meta, state)
    }

    fn process_child_values<P: Processor>(
        &mut self,
        processor: &mut P,
        state: &ProcessingState<'_>,
    ) -> (r: ProcessingResult) {
        Ok(())
    }
}

impl ProcessValue for i64 {
    fn value_type(&self) -> (r: ValueTypeSet) {
        ValueTypeSet::only(ValueType::Number)
    }

    fn process_value<P: Processor>(
        &mut self,
        meta: &mut Meta,
        processor: &mut P,
        state: &ProcessingState<'_>,
    ) -> (r: ProcessingResult) {
        processor.process_i64(self, meta, state)
    }

    fn process_child_values<P: Processor>(
        &mut self,
        processor: &mut P,
        state: &ProcessingState<'_>,
    ) -> (r: ProcessingResult) {
        Ok(())
    }
}

impl ProcessValue for FiniteF64 {
    fn value_type(&self) -> (r: ValueTypeSet) {
        ValueTypeSet::only(ValueType::Number)
    }

    fn process_value<P: Processor>(
        &mut self,
        meta: &mut Meta,
        processor: &mut P,
        state: &ProcessingState<'_>,
    ) -> (r: ProcessingResult) {
        processor.process_finite_f64(self, meta, state)
    }

    fn process_child_values<P: Processor>(
        &mut self,
        processor: &mut P,
        state: &ProcessingState<'_>,
    ) -> (r: ProcessingResult) {
        Ok(())
    }
}

/// The kinds that an annotated value presents as: those of the value, and
/// none where it is absent.
pub fn for_field<T: ProcessValue>(field: &Annotated<T>) -> (r: ValueTypeSet)
    ensures
        r@ == crate::processor::traits::slot_of(*field).kind(),
{
    match &field.0 {
        Some(value) => value.value_type(),
        None => ValueTypeSet::empty(),
    }
}

/// Processes an annotated value: calls `before_process`, shows the value,
/// where it is present, to the hook of its kind, and calls `after_process`.
/// The first of these that ends the traversal is the last that is called, and
/// its action is returned as it is.
pub fn process_value<T: ProcessValue, P: Processor>(
    annotated: &mut Annotated<T>,
    processor: &mut P,
    state: &ProcessingState<'_>,
) -> (r: ProcessingResult)
    ensures
        (SlotVisited {
            processor: *final(processor),
            slot: crate::processor::traits::slot_of(*final(annotated)),
            result: r,
        }) == crate::processor::walk::visit_slot(
            *old(processor),
            crate::processor::traits::slot_of(*old(annotated)),
            state@,
        ),
{
    processor.before_process(annotated.0.as_ref(), &mut annotated.1, state)?;
    match &mut annotated.0 {
        Some(value) => {
            value.process_value(&mut annotated.1, processor, state)?;
        },
        None => {},
    }
    processor.after_process(annotated.0.as_ref(), &mut annotated.1, state)
}

impl<T: ProcessValue> ProcessValue for Array<T> {
    fn value_type(&self) -> (r: ValueTypeSet) {
        ValueTypeSet::only(ValueType::Array)
    }

    fn process_value<P: Processor>(
        &mut self,
        meta: &mut Meta,
        processor: &mut P,
        state: &ProcessingState<'_>,
    ) -> (r: ProcessingResult) {
        match processor.process_array(&*self, meta, state) {
            Ok(Descent::Recurse) => self.process_child_values(processor, state),
            answer => settled(answer),
        }
    }

    fn process_child_values<P: Processor>(
        &mut self,
        processor: &mut P,
        state: &ProcessingState<'_>,
    ) -> (r: ProcessingResult) {
        let ghost orig = items_of(self@);
        let ghost first = *processor;
        let n = self.len();
        let mut i: usize = 0;
        while i < n
            invariant
                self.len() == n,
                i <= n,
                orig == items_of(old(self)@),
                first == *old(processor),
                orig.len() == n,
                forall|j: int| i <= j < n ==> (#[trigger] items_of(self@)[j]) == orig[j],
                crate::processor::walk::visit_from(first, orig, orig, 0, state@)
                    == crate::processor::walk::visit_from(
                    *processor,
                    orig,
                    items_of(self@),
                    i as int,
                    state@,
                ),
            decreases n - i,
        {
            let ghost before = items_of(self@);
            let kind = for_field(&self[i]);
            let child = state.enter_index(i, None, kind);
            assert(orig[i as int] == before[i as int]);
            let r = process_value(&mut self[i], processor, &child);
            assert(items_of(self@) =~= before.update(
                i as int,
                Child {
                    slot: crate::processor::traits::slot_of(self@[i as int]),
                    ..orig[i as int]
                },
            ));
            if r.is_err() {
                return r;
            }
            i += 1;
        }
        Ok(())
    }
}

impl<T: ProcessValue> ProcessValue for Object<T> {
    fn value_type(&self) -> (r: ValueTypeSet) {
        ValueTypeSet::only(ValueType::Object)
    }

    fn process_value<P: Processor>(
        &mut self,
        meta: &mut Meta,
        processor: &mut P,
        state: &ProcessingState<'_>,
    ) -> (r: ProcessingResult) {
        match processor.process_object(&*self, meta, state) {
            Ok(Descent::Recurse) => self.process_child_values(processor, state),
            answer => settled(answer),
        }
    }

    fn process_child_values<P: Processor>(
        &mut self,
        processor: &mut P,
        state: &ProcessingState<'_>,
    ) -> (r: ProcessingResult) {
        let ghost orig = entries_of(self@);
        let ghost first = *processor;
        let n = self.entries.len();
        let mut i: usize = 0;
        while i < n
            invariant
                self.entries.len() == n,
                i <= n,
                orig == entries_of(old(self)@),
                first == *old(processor),
                orig.len() == n,
                forall|j: int| i <= j < n ==> (#[trigger] entries_of(self@)[j]) == orig[j],
                crate::processor::walk::visit_from(first, orig, orig, 0, state@)
                    == crate::processor::walk::visit_from(
                    *processor,
                    orig,
                    entries_of(self@),
                    i as int,
                    state@,
                ),
            decreases n - i,
        {
            let ghost before = entries_of(self@);
            assert(orig[i as int] == before[i as int]);
            let entry = &mut self.entries[i];
            let kind = for_field(&entry.1);
            let child = state.enter_borrowed(entry.0.as_str(), None, kind);
            let r = process_value(&mut entry.1, processor, &child);
            assert(entries_of(self@) =~= before.update(
                i as int,
                Child {
                    slot: crate::processor::traits::slot_of(self@[i as int].1),
                    ..orig[i as int]
                },
            ));
            if r.is_err() {
                return r;
            }
            i += 1;
        }
        Ok(())
    }
}

impl<T: ProcessValue> ProcessValue for Box<T> {
    fn value_type(&self) -> (r: ValueTypeSet) {
        (**self).value_type()
    }

    fn process_value<P: Processor>(
        &mut self,
        meta: &mut Meta,
        processor: &mut P,
        state: &ProcessingState<'_>,
    ) -> (r: ProcessingResult) {
        (**self).process_value(meta, processor, state)
    }

    fn process_child_values<P: Processor>(
        &mut self,
        processor: &mut P,
        state: &ProcessingState<'_>,
    ) -> (r: ProcessingResult) {
        (**self).process_child_values(processor, state)
    }
}

} // verus!
