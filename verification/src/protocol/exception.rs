//! The exceptions of an event.

use crate::annotated::Annotated;
use crate::attrs::{FieldAttrs, Pii};
use crate::meta::Meta;
use crate::processor::action::{settled, Descent, ProcessingResult};
use crate::processor::impls::{for_field, process_value};
use crate::processor::model::{self, Bag, ChildList, Hook, Tree};
use crate::processor::state::ProcessingState;
use crate::processor::traits::{self, Node, ProcessValue, Processor};
use crate::value::{Object, Value};
use crate::value_type::{ValueType, ValueTypeSet};
use crate::protocol::types::JsonLenientString;
use vstd::prelude::*;

verus! {

/// One exception. Several exceptions of one event are chained, the oldest first.
#[derive(Debug)]
pub struct Exception {
    /// The type of the exception.
    pub ty: Annotated<String>,
    /// The text that describes the exception.
    pub value: Annotated<JsonLenientString>,
    /// The module or package that the type of the exception lives in.
    pub module: Annotated<String>,
    /// Additional fields that the schema does not declare.
    pub other: Object<Value>,
}

impl Default for Exception {
    /// The value in which every field is absent.
    fn default() -> (r: Exception)
        ensures
            r.ty.blank(),
            r.value.blank(),
            r.module.blank(),
            r.other@.len() == 0,
    {
        Exception {
            ty: Annotated::empty(),
            value: Annotated::empty(),
            module: Annotated::empty(),
            other: Object::new(),
        }
    }
}

impl Exception {
    /// The declared fields as children, in the order of their declaration.
    pub open spec fn fields(&self) -> ChildList {
        let ty = model::field(
            "type"@,
            FieldAttrs::new().max_chars(256).max_chars_allowance(20),
            traits::slot_of(self.ty),
        );
        let value = model::field(
            "value"@,
            FieldAttrs::new().max_chars(8192).max_chars_allowance(200).pii(Pii::True),
            traits::slot_of(self.value),
        );
        let module = model::field(
            "module"@,
            FieldAttrs::new().max_chars(256).max_chars_allowance(20),
            traits::slot_of(self.module),
        );
        model::cons(ty, model::cons(value, model::cons(module, ChildList::Nil)))
    }
}

impl Node for Exception {
    open spec fn tree(&self) -> Tree {
        Tree::Branch {
            hook: Some(Hook::Exception),
            kind: set![ValueType::Exception],
            children: self.fields().seq(),
            bag: Some(
                Bag {
                    attrs: FieldAttrs::new().additional_properties(),
                    entries: crate::processor::impls::entries_of(self.other@),
                },
            ),
        }
    }
}

impl ProcessValue for Exception {
    fn value_type(&self) -> (r: ValueTypeSet) {
        ValueTypeSet::only(ValueType::Exception)
    }

    fn process_value<P: Processor>(
        &mut self,
        meta: &mut Meta,
        processor: &mut P,
        state: &ProcessingState<'_>,
    ) -> (r: ProcessingResult) {
        match processor.process_exception(&*self, meta, state) {
            Ok(Descent::Recurse) => self.process_child_values(processor, state),
            answer => settled(answer),
        }
    }

    fn process_child_values<P: Processor>(
        &mut self,
        processor: &mut P,
        state: &ProcessingState<'_>,
    ) -> (r: ProcessingResult) {
        let ghost mut rest = self.fields();
        proof {
            crate::processor::walk::lemma_visit_list(*processor, rest, state@);
        }
        let ghost bag = self.other;
        let child = state.enter_static(
            "type",
            Some(FieldAttrs::new().max_chars(256).max_chars_allowance(20)),
            for_field(&self.ty),
        );
        proof {
            crate::processor::walk::lemma_list_step(*processor, rest, state@);
            rest = rest.rest();
        }
        process_value(&mut self.ty, processor, &child)?;
        let child = state.enter_static(
            "value",
            Some(FieldAttrs::new().max_chars(8192).max_chars_allowance(200).pii(Pii::True)),
            for_field(&self.value),
        );
        proof {
            crate::processor::walk::lemma_list_step(*processor, rest, state@);
            rest = rest.rest();
        }
        process_value(&mut self.value, processor, &child)?;
        let child = state.enter_static(
            "module",
            Some(FieldAttrs::new().max_chars(256).max_chars_allowance(20)),
            for_field(&self.module),
        );
        proof {
            crate::processor::walk::lemma_list_step(*processor, rest, state@);
            rest = rest.rest();
        }
        process_value(&mut self.module, processor, &child)?;
        proof {
            crate::processor::walk::lemma_list_step(*processor, rest, state@);
        }
        let bag_state = state.enter_nothing(Some(FieldAttrs::new().additional_properties()));
        match processor.process_other(&self.other, &bag_state) {
            Ok(Descent::Recurse) => {
                let ghost asked = *processor;
                let r = self.other.process_child_values(processor, &bag_state);
                proof {
                    let below = crate::processor::walk::visit_children(
                        asked,
                        crate::processor::traits::Node::tree(&bag),
                        bag_state@,
                    );
                    assert(below.tree == crate::processor::traits::Node::tree(&self.other));
                }
                r
            },
            answer => settled(answer),
        }
    }
}

} // verus!
