//! Tuples of annotated values as values that can be processed.
//!
//! A tuple is a sequence of fixed length: it has no hook of its own, and each
//! of its slots is a child under the number of its position.

use crate::annotated::Annotated;
use crate::meta::Meta;
use crate::processor::action::ProcessingResult;
use crate::processor::impls::{for_field, process_value};
use crate::processor::model::{self, Child, ChildList, Segment, Tree};
use crate::processor::state::ProcessingState;
use crate::processor::traits::{self, Node, ProcessValue, Processor};
use crate::value_type::{ValueType, ValueTypeSet};
use vstd::prelude::*;

verus! {

/// The child at position `index` of a tuple.
pub open spec fn slot_at<T: Node>(index: nat, field: Annotated<T>) -> Child {
    Child { segment: Some(Segment::Index(index)), attrs: None, slot: traits::slot_of(field) }
}

/// The model of a tuple with the slots `slots`.
pub open spec fn tuple_tree(slots: ChildList) -> Tree {
    Tree::Branch { hook: None, kind: set![ValueType::Array], children: slots.seq(), bag: None }
}

impl<T1: Node> Node for (Annotated<T1>,) {
    open spec fn tree(&self) -> Tree {
        tuple_tree(
            model::cons(slot_at(0, self.0), ChildList::Nil),
        )
    }
}

impl<T1: ProcessValue> ProcessValue for (Annotated<T1>,) {
    fn value_type(&self) -> (r: ValueTypeSet) {
        ValueTypeSet::only(ValueType::Array)
    }

    fn process_value<P: Processor>(
        &mut self,
        meta: &mut Meta,
        processor: &mut P,
        state: &ProcessingState<'_>,
    ) -> (r: ProcessingResult) {
        self.process_child_values(processor, state)
    }

    fn process_child_values<P: Processor>(
        &mut self,
        processor: &mut P,
        state: &ProcessingState<'_>,
    ) -> (r: ProcessingResult) {
        let ghost mut rest =
            model::cons(slot_at(0, self.0), ChildList::Nil);
        proof {
            crate::processor::walk::lemma_visit_list(*processor, rest, state@);
        }
        let child = state.enter_index(0, None, for_field(&self.0));
        proof {
            crate::processor::walk::lemma_list_step(*processor, rest, state@);
            rest = rest.rest();
        }
        process_value(&mut self.0, processor, &child)?;
        proof {
            crate::processor::walk::lemma_list_step(*processor, rest, state@);
        }
        Ok(())
    }
}

impl<T1: Node, T2: Node> Node for (Annotated<T1>, Annotated<T2>) {
    open spec fn tree(&self) -> Tree {
        tuple_tree(
            model::cons(slot_at(0, self.0), model::cons(slot_at(1, self.1), ChildList::Nil)),
        )
    }
}

impl<T1: ProcessValue, T2: ProcessValue> ProcessValue for (Annotated<T1>, Annotated<T2>) {
    fn value_type(&self) -> (r: ValueTypeSet) {
        ValueTypeSet::only(ValueType::Array)
    }

    fn process_value<P: Processor>(
        &mut self,
        meta: &mut Meta,
        processor: &mut P,
        state: &ProcessingState<'_>,
    ) -> (r: ProcessingResult) {
        self.process_child_values(processor, state)
    }

    fn process_child_values<P: Processor>(
        &mut self,
        processor: &mut P,
        state: &ProcessingState<'_>,
    ) -> (r: ProcessingResult) {
        let ghost mut rest =
            model::cons(slot_at(0, self.0), model::cons(slot_at(1, self.1), ChildList::Nil));
        proof {
            crate::processor::walk::lemma_visit_list(*processor, rest, state@);
        }
        let child = state.enter_index(0, None, for_field(&self.0));
        proof {
            crate::processor::walk::lemma_list_step(*processor, rest, state@);
            rest = rest.rest();
        }
        process_value(&mut self.0, processor, &child)?;
        let child = state.enter_index(1, None, for_field(&self.1));
        proof {
            crate::processor::walk::lemma_list_step(*processor, rest, state@);
            rest = rest.rest();
        }
        process_value(&mut self.1, processor, &child)?;
        proof {
            crate::processor::walk::lemma_list_step(*processor, rest, state@);
        }
        Ok(())
    }
}

impl<T1: Node, T2: Node, T3: Node> Node for (Annotated<T1>, Annotated<T2>, Annotated<T3>) {
    open spec fn tree(&self) -> Tree {
        tuple_tree(
            model::cons(slot_at(0, self.0), model::cons(slot_at(1, self.1),
                model::cons(slot_at(2, self.2), ChildList::Nil))),
        )
    }
}

impl<
    T1: ProcessValue,
    T2: ProcessValue,
    T3: ProcessValue,
> ProcessValue for (
    Annotated<T1>,
    Annotated<T2>,
    Annotated<T3>,
) {
    fn value_type(&self) -> (r: ValueTypeSet) {
        ValueTypeSet::only(ValueType::Array)
    }

    fn process_value<P: Processor>(
        &mut self,
        meta: &mut Meta,
        processor: &mut P,
        state: &ProcessingState<'_>,
    ) -> (r: ProcessingResult) {
        self.process_child_values(processor, state)
    }

    fn process_child_values<P: Processor>(
        &mut self,
        processor: &mut P,
        state: &ProcessingState<'_>,
    ) -> (r: ProcessingResult) {
        let ghost mut rest =
            model::cons(slot_at(0, self.0), model::cons(slot_at(1, self.1),
                model::cons(slot_at(2, self.2), ChildList::Nil)));
        proof {
            crate::processor::walk::lemma_visit_list(*processor, rest, state@);
        }
        let child = state.enter_index(0, None, for_field(&self.0));
        proof {
            crate::processor::walk::lemma_list_step(*processor, rest, state@);
            rest = rest.rest();
        }
        process_value(&mut self.0, processor, &child)?;
        let child = state.enter_index(1, None, for_field(&self.1));
        proof {
            crate::processor::walk::lemma_list_step(*processor, rest, state@);
            rest = rest.rest();
        }
        process_value(&mut self.1, processor, &child)?;
        let child = state.enter_index(2, None, for_field(&self.2));
        proof {
            crate::processor::walk::lemma_list_step(*processor, rest, state@);
            rest = rest.rest();
        }
        process_value(&mut self.2, processor, &child)?;
        proof {
            crate::processor::walk::lemma_list_step(*processor, rest, state@);
        }
        Ok(())
    }
}

impl<
    T1: Node,
    T2: Node,
    T3: Node,
    T4: Node,
> Node for (
    Annotated<T1>,
    Annotated<T2>,
    Annotated<T3>,
    Annotated<T4>,
) {
    open spec fn tree(&self) -> Tree {
        tuple_tree(
            model::cons(slot_at(0, self.0), model::cons(slot_at(1, self.1),
                model::cons(slot_at(2, self.2), model::cons(slot_at(3, self.3), ChildList::Nil)))),
        )
    }
}

impl<
    T1: ProcessValue,
    T2: ProcessValue,
    T3: ProcessValue,
    T4: ProcessValue,
> ProcessValue for (
    Annotated<T1>,
    Annotated<T2>,
    Annotated<T3>,
    Annotated<T4>,
) {
    fn value_type(&self) -> (r: ValueTypeSet) {
        ValueTypeSet::only(ValueType::Array)
    }

    fn process_value<P: Processor>(
        &mut self,
        meta: &mut Meta,
        processor: &mut P,
        state: &ProcessingState<'_>,
    ) -> (r: ProcessingResult) {
        self.process_child_values(processor, state)
    }

    fn process_child_values<P: Processor>(
        &mut self,
        processor: &mut P,
        state: &ProcessingState<'_>,
    ) -> (r: ProcessingResult) {
        let ghost mut rest =
            model::cons(slot_at(0, self.0), model::cons(slot_at(1, self.1),
                model::cons(slot_at(2, self.2), model::cons(slot_at(3, self.3), ChildList::Nil))));
        proof {
            crate::processor::walk::lemma_visit_list(*processor, rest, state@);
        }
        let child = state.enter_index(0, None, for_field(&self.0));
        proof {
            crate::processor::walk::lemma_list_step(*processor, rest, state@);
            rest = rest.rest();
        }
        process_value(&mut self.0, processor, &child)?;
        let child = state.enter_index(1, None, for_field(&self.1));
        proof {
            crate::processor::walk::lemma_list_step(*processor, rest, state@);
            rest = rest.rest();
        }
        process_value(&mut self.1, processor, &child)?;
        let child = state.enter_index(2, None, for_field(&self.2));
        proof {
            crate::processor::walk::lemma_list_step(*processor, rest, state@);
            rest = rest.rest();
        }
        process_value(&mut self.2, processor, &child)?;
        let child = state.enter_index(3, None, for_field(&self.3));
        proof {
            crate::processor::walk::lemma_list_step(*processor, rest, state@);
            rest = rest.rest();
        }
        process_value(&mut self.3, processor, &child)?;
        proof {
            crate::processor::walk::lemma_list_step(*processor, rest, state@);
        }
        Ok(())
    }
}

impl<
    T1: Node,
    T2: Node,
    T3: Node,
    T4: Node,
    T5: Node,
> Node for (
    Annotated<T1>,
    Annotated<T2>,
    Annotated<T3>,
    Annotated<T4>,
    Annotated<T5>,
) {
    open spec fn tree(&self) -> Tree {
        tuple_tree(
            model::cons(slot_at(0, self.0), model::cons(slot_at(1, self.1),
                model::cons(slot_at(2, self.2), model::cons(slot_at(3, self.3),
                model::cons(slot_at(4, self.4), ChildList::Nil))))),
        )
    }
}

impl<
    T1: ProcessValue,
    T2: ProcessValue,
    T3: ProcessValue,
    T4: ProcessValue,
    T5: ProcessValue,
> ProcessValue for (
    Annotated<T1>,
    Annotated<T2>,
    Annotated<T3>,
    Annotated<T4>,
    Annotated<T5>,
) {
    fn value_type(&self) -> (r: ValueTypeSet) {
        ValueTypeSet::only(ValueType::Array)
    }

    fn process_value<P: Processor>(
        &mut self,
        meta: &mut Meta,
        processor: &mut P,
        state: &ProcessingState<'_>,
    ) -> (r: ProcessingResult) {
        self.process_child_values(processor, state)
    }

    fn process_child_values<P: Processor>(
        &mut self,
        processor: &mut P,
        state: &ProcessingState<'_>,
    ) -> (r: ProcessingResult) {
        let ghost mut rest =
            model::cons(slot_at(0, self.0), model::cons(slot_at(1, self.1),
                model::cons(slot_at(2, self.2), model::cons(slot_at(3, self.3),
                model::cons(slot_at(4, self.4), ChildList::Nil)))));
        proof {
            crate::processor::walk::lemma_visit_list(*processor, rest, state@);
        }
        let child = state.enter_index(0, None, for_field(&self.0));
        proof {
            crate::processor::walk::lemma_list_step(*processor, rest, state@);
            rest = rest.rest();
        }
        process_value(&mut self.0, processor, &child)?;
        let child = state.enter_index(1, None, for_field(&self.1));
        proof {
            crate::processor::walk::lemma_list_step(*processor, rest, state@);
            rest = rest.rest();
        }
        process_value(&mut self.1, processor, &child)?;
        let child = state.enter_index(2, None, for_field(&self.2));
        proof {
            crate::processor::walk::lemma_list_step(*processor, rest, state@);
            rest = rest.rest();
        }
        process_value(&mut self.2, processor, &child)?;
        let child = state.enter_index(3, None, for_field(&self.3));
        proof {
            crate::processor::walk::lemma_list_step(*processor, rest, state@);
            rest = rest.rest();
        }
        process_value(&mut self.3, processor, &child)?;
        let child = state.enter_index(4, None, for_field(&self.4));
        proof {
            crate::processor::walk::lemma_list_step(*processor, rest, state@);
            rest = rest.rest();
        }
        process_value(&mut self.4, processor, &child)?;
        proof {
            crate::processor::walk::lemma_list_step(*processor, rest, state@);
        }
        Ok(())
    }
}

impl<
    T1: Node,
    T2: Node,
    T3: Node,
    T4: Node,
    T5: Node,
    T6: Node,
> Node for (
    Annotated<T1>,
    Annotated<T2>,
    Annotated<T3>,
    Annotated<T4>,
    Annotated<T5>,
    Annotated<T6>,
) {
    open spec fn tree(&self) -> Tree {
        tuple_tree(
            model::cons(slot_at(0, self.0), model::cons(slot_at(1, self.1),
                model::cons(slot_at(2, self.2), model::cons(slot_at(3, self.3),
                model::cons(slot_at(4, self.4),
                model::cons(slot_at(5, self.5), ChildList::Nil)))))),
        )
    }
}

impl<
    T1: ProcessValue,
    T2: ProcessValue,
    T3: ProcessValue,
    T4: ProcessValue,
    T5: ProcessValue,
    T6: ProcessValue,
> ProcessValue for (
    Annotated<T1>,
    Annotated<T2>,
    Annotated<T3>,
    Annotated<T4>,
    Annotated<T5>,
    Annotated<T6>,
) {
    fn value_type(&self) -> (r: ValueTypeSet) {
        ValueTypeSet::only(ValueType::Array)
    }

    fn process_value<P: Processor>(
        &mut self,
        meta: &mut Meta,
        processor: &mut P,
        state: &ProcessingState<'_>,
    ) -> (r: ProcessingResult) {
        self.process_child_values(processor, state)
    }

    fn process_child_values<P: Processor>(
        &mut self,
        processor: &mut P,
        state: &ProcessingState<'_>,
    ) -> (r: ProcessingResult) {
        let ghost mut rest =
            model::cons(slot_at(0, self.0), model::cons(slot_at(1, self.1),
                model::cons(slot_at(2, self.2), model::cons(slot_at(3, self.3),
                model::cons(slot_at(4, self.4),
                model::cons(slot_at(5, self.5), ChildList::Nil))))));
        proof {
            crate::processor::walk::lemma_visit_list(*processor, rest, state@);
        }
        let child = state.enter_index(0, None, for_field(&self.0));
        proof {
            crate::processor::walk::lemma_list_step(*processor, rest, state@);
            rest = rest.rest();
        }
        process_value(&mut self.0, processor, &child)?;
        let child = state.enter_index(1, None, for_field(&self.1));
        proof {
            crate::processor::walk::lemma_list_step(*processor, rest, state@);
            rest = rest.rest();
        }
        process_value(&mut self.1, processor, &child)?;
        let child = state.enter_index(2, None, for_field(&self.2));
        proof {
            crate::processor::walk::lemma_list_step(*processor, rest, state@);
            rest = rest.rest();
        }
        process_value(&mut self.2, processor, &child)?;
        let child = state.enter_index(3, None, for_field(&self.3));
        proof {
            crate::processor::walk::lemma_list_step(*processor, rest, state@);
            rest = rest.rest();
        }
        process_value(&mut self.3, processor, &child)?;
        let child = state.enter_index(4, None, for_field(&self.4));
        proof {
            crate::processor::walk::lemma_list_step(*processor, rest, state@);
            rest = rest.rest();
        }
        process_value(&mut self.4, processor, &child)?;
        let child = state.enter_index(5, None, for_field(&self.5));
        proof {
            crate::processor::walk::lemma_list_step(*processor, rest, state@);
            rest = rest.rest();
        }
        process_value(&mut self.5, processor, &child)?;
        proof {
            crate::processor::walk::lemma_list_step(*processor, rest, state@);
        }
        Ok(())
    }
}

impl<
    T1: Node,
    T2: Node,
    T3: Node,
    T4: Node,
    T5: Node,
    T6: Node,
    T7: Node,
> Node for (
    Annotated<T1>,
    Annotated<T2>,
    Annotated<T3>,
    Annotated<T4>,
    Annotated<T5>,
    Annotated<T6>,
    Annotated<T7>,
) {
    open spec fn tree(&self) -> Tree {
        tuple_tree(
            model::cons(slot_at(0, self.0), model::cons(slot_at(1, self.1),
                model::cons(slot_at(2, self.2), model::cons(slot_at(3, self.3),
                model::cons(slot_at(4, self.4), model::cons(slot_at(5, self.5),
                model::cons(slot_at(6, self.6), ChildList::Nil))))))),
        )
    }
}

impl<
    T1: ProcessValue,
    T2: ProcessValue,
    T3: ProcessValue,
    T4: ProcessValue,
    T5: ProcessValue,
    T6: ProcessValue,
    T7: ProcessValue,
> ProcessValue for (
    Annotated<T1>,
    Annotated<T2>,
    Annotated<T3>,
    Annotated<T4>,
    Annotated<T5>,
    Annotated<T6>,
    Annotated<T7>,
) {
    fn value_type(&self) -> (r: ValueTypeSet) {
        ValueTypeSet::only(ValueType::Array)
    }

    fn process_value<P: Processor>(
        &mut self,
        meta: &mut Meta,
        processor: &mut P,
        state: &ProcessingState<'_>,
    ) -> (r: ProcessingResult) {
        self.process_child_values(processor, state)
    }

    fn process_child_values<P: Processor>(
        &mut self,
        processor: &mut P,
        state: &ProcessingState<'_>,
    ) -> (r: ProcessingResult) {
        let ghost mut rest =
            model::cons(slot_at(0, self.0), model::cons(slot_at(1, self.1),
                model::cons(slot_at(2, self.2), model::cons(slot_at(3, self.3),
                model::cons(slot_at(4, self.4), model::cons(slot_at(5, self.5),
                model::cons(slot_at(6, self.6), ChildList::Nil)))))));
        proof {
            crate::processor::walk::lemma_visit_list(*processor, rest, state@);
        }
        let child = state.enter_index(0, None, for_field(&self.0));
        proof {
            crate::processor::walk::lemma_list_step(*processor, rest, state@);
            rest = rest.rest();
        }
        process_value(&mut self.0, processor, &child)?;
        let child = state.enter_index(1, None, for_field(&self.1));
        proof {
            crate::processor::walk::lemma_list_step(*processor, rest, state@);
            rest = rest.rest();
        }
        process_value(&mut self.1, processor, &child)?;
        let child = state.enter_index(2, None, for_field(&self.2));
        proof {
            crate::processor::walk::lemma_list_step(*processor, rest, state@);
            rest = rest.rest();
        }
        process_value(&mut self.2, processor, &child)?;
        let child = state.enter_index(3, None, for_field(&self.3));
        proof {
            crate::processor::walk::lemma_list_step(*processor, rest, state@);
            rest = rest.rest();
        }
        process_value(&mut self.3, processor, &child)?;
        let child = state.enter_index(4, None, for_field(&self.4));
        proof {
            crate::processor::walk::lemma_list_step(*processor, rest, state@);
            rest = rest.rest();
        }
        process_value(&mut self.4, processor, &child)?;
        let child = state.enter_index(5, None, for_field(&self.5));
        proof {
            crate::processor::walk::lemma_list_step(*processor, rest, state@);
            rest = rest.rest();
        }
        process_value(&mut self.5, processor, &child)?;
        let child = state.enter_index(6, None, for_field(&self.6));
        proof {
            crate::processor::walk::lemma_list_step(*processor, rest, state@);
            rest = rest.rest();
        }
        process_value(&mut self.6, processor, &child)?;
        proof {
            crate::processor::walk::lemma_list_step(*processor, rest, state@);
        }
        Ok(())
    }
}

impl<
    T1: Node,
    T2: Node,
    T3: Node,
    T4: Node,
    T5: Node,
    T6: Node,
    T7: Node,
    T8: Node,
> Node for (
    Annotated<T1>,
    Annotated<T2>,
    Annotated<T3>,
    Annotated<T4>,
    Annotated<T5>,
    Annotated<T6>,
    Annotated<T7>,
    Annotated<T8>,
) {
    open spec fn tree(&self) -> Tree {
        tuple_tree(
            model::cons(slot_at(0, self.0), model::cons(slot_at(1, self.1),
                model::cons(slot_at(2, self.2), model::cons(slot_at(3, self.3),
                model::cons(slot_at(4, self.4), model::cons(slot_at(5, self.5),
                model::cons(slot_at(6, self.6), model::cons(slot_at(7, self.7),
                ChildList::Nil)))))))),
        )
    }
}

impl<
    T1: ProcessValue,
    T2: ProcessValue,
    T3: ProcessValue,
    T4: ProcessValue,
    T5: ProcessValue,
    T6: ProcessValue,
    T7: ProcessValue,
    T8: ProcessValue,
> ProcessValue for (
    Annotated<T1>,
    Annotated<T2>,
    Annotated<T3>,
    Annotated<T4>,
    Annotated<T5>,
    Annotated<T6>,
    Annotated<T7>,
    Annotated<T8>,
) {
    fn value_type(&self) -> (r: ValueTypeSet) {
        ValueTypeSet::only(ValueType::Array)
    }

    fn process_value<P: Processor>(
        &mut self,
        meta: &mut Meta,
        processor: &mut P,
        state: &ProcessingState<'_>,
    ) -> (r: ProcessingResult) {
        self.process_child_values(processor, state)
    }

    fn process_child_values<P: Processor>(
        &mut self,
        processor: &mut P,
        state: &ProcessingState<'_>,
    ) -> (r: ProcessingResult) {
        let ghost mut rest =
            model::cons(slot_at(0, self.0), model::cons(slot_at(1, self.1),
                model::cons(slot_at(2, self.2), model::cons(slot_at(3, self.3),
                model::cons(slot_at(4, self.4), model::cons(slot_at(5, self.5),
                model::cons(slot_at(6, self.6), model::cons(slot_at(7, self.7),
                ChildList::Nil))))))));
        proof {
            crate::processor::walk::lemma_visit_list(*processor, rest, state@);
        }
        let child = state.enter_index(0, None, for_field(&self.0));
        proof {
            crate::processor::walk::lemma_list_step(*processor, rest, state@);
            rest = rest.rest();
        }
        process_value(&mut self.0, processor, &child)?;
        let child = state.enter_index(1, None, for_field(&self.1));
        proof {
            crate::processor::walk::lemma_list_step(*processor, rest, state@);
            rest = rest.rest();
        }
        process_value(&mut self.1, processor, &child)?;
        let child = state.enter_index(2, None, for_field(&self.2));
        proof {
            crate::processor::walk::lemma_list_step(*processor, rest, state@);
            rest = rest.rest();
        }
        process_value(&mut self.2, processor, &child)?;
        let child = state.enter_index(3, None, for_field(&self.3));
        proof {
            crate::processor::walk::lemma_list_step(*processor, rest, state@);
            rest = rest.rest();
        }
        process_value(&mut self.3, processor, &child)?;
        let child = state.enter_index(4, None, for_field(&self.4));
        proof {
            crate::processor::walk::lemma_list_step(*processor, rest, state@);
            rest = rest.rest();
        }
        process_value(&mut self.4, processor, &child)?;
        let child = state.enter_index(5, None, for_field(&self.5));
        proof {
            crate::processor::walk::lemma_list_step(*processor, rest, state@);
            rest = rest.rest();
        }
        process_value(&mut self.5, processor, &child)?;
        let child = state.enter_index(6, None, for_field(&self.6));
        proof {
            crate::processor::walk::lemma_list_step(*processor, rest, state@);
            rest = rest.rest();
        }
        process_value(&mut self.6, processor, &child)?;
        let child = state.enter_index(7, None, for_field(&self.7));
        proof {
            crate::processor::walk::lemma_list_step(*processor, rest, state@);
            rest = rest.rest();
        }
        process_value(&mut self.7, processor, &child)?;
        proof {
            crate::processor::walk::lemma_list_step(*processor, rest, state@);
        }
        Ok(())
    }
}

impl<
    T1: Node,
    T2: Node,
    T3: Node,
    T4: Node,
    T5: Node,
    T6: Node,
    T7: Node,
    T8: Node,
    T9: Node,
> Node for (
    Annotated<T1>,
    Annotated<T2>,
    Annotated<T3>,
    Annotated<T4>,
    Annotated<T5>,
    Annotated<T6>,
    Annotated<T7>,
    Annotated<T8>,
    Annotated<T9>,
) {
    open spec fn tree(&self) -> Tree {
        tuple_tree(
            model::cons(slot_at(0, self.0), model::cons(slot_at(1, self.1),
                model::cons(slot_at(2, self.2), model::cons(slot_at(3, self.3),
                model::cons(slot_at(4, self.4), model::cons(slot_at(5, self.5),
                model::cons(slot_at(6, self.6), model::cons(slot_at(7, self.7),
                model::cons(slot_at(8, self.8), ChildList::Nil))))))))),
        )
    }
}

impl<
    T1: ProcessValue,
    T2: ProcessValue,
    T3: ProcessValue,
    T4: ProcessValue,
    T5: ProcessValue,
    T6: ProcessValue,
    T7: ProcessValue,
    T8: ProcessValue,
    T9: ProcessValue,
> ProcessValue for (
    Annotated<T1>,
    Annotated<T2>,
    Annotated<T3>,
    Annotated<T4>,
    Annotated<T5>,
    Annotated<T6>,
    Annotated<T7>,
    Annotated<T8>,
    Annotated<T9>,
) {
    fn value_type(&self) -> (r: ValueTypeSet) {
        ValueTypeSet::only(ValueType::Array)
    }

    fn process_value<P: Processor>(
        &mut self,
        meta: &mut Meta,
        processor: &mut P,
        state: &ProcessingState<'_>,
    ) -> (r: ProcessingResult) {
        self.process_child_values(processor, state)
    }

    fn process_child_values<P: Processor>(
        &mut self,
        processor: &mut P,
        state: &ProcessingState<'_>,
    ) -> (r: ProcessingResult) {
        let ghost mut rest =
            model::cons(slot_at(0, self.0), model::cons(slot_at(1, self.1),
                model::cons(slot_at(2, self.2), model::cons(slot_at(3, self.3),
                model::cons(slot_at(4, self.4), model::cons(slot_at(5, self.5),
                model::cons(slot_at(6, self.6), model::cons(slot_at(7, self.7),
                model::cons(slot_at(8, self.8), ChildList::Nil)))))))));
        proof {
            crate::processor::walk::lemma_visit_list(*processor, rest, state@);
        }
        let child = state.enter_index(0, None, for_field(&self.0));
        proof {
            crate::processor::walk::lemma_list_step(*processor, rest, state@);
            rest = rest.rest();
        }
        process_value(&mut self.0, processor, &child)?;
        let child = state.enter_index(1, None, for_field(&self.1));
        proof {
            crate::processor::walk::lemma_list_step(*processor, rest, state@);
            rest = rest.rest();
        }
        process_value(&mut self.1, processor, &child)?;
        let child = state.enter_index(2, None, for_field(&self.2));
        proof {
            crate::processor::walk::lemma_list_step(*processor, rest, state@);
            rest = rest.rest();
        }
        process_value(&mut self.2, processor, &child)?;
        let child = state.enter_index(3, None, for_field(&self.3));
        proof {
            crate::processor::walk::lemma_list_step(*processor, rest, state@);
            rest = rest.rest();
        }
        process_value(&mut self.3, processor, &child)?;
        let child = state.enter_index(4, None, for_field(&self.4));
        proof {
            crate::processor::walk::lemma_list_step(*processor, rest, state@);
            rest = rest.rest();
        }
        process_value(&mut self.4, processor, &child)?;
        let child = state.enter_index(5, None, for_field(&self.5));
        proof {
            crate::processor::walk::lemma_list_step(*processor, rest, state@);
            rest = rest.rest();
        }
        process_value(&mut self.5, processor, &child)?;
        let child = state.enter_index(6, None, for_field(&self.6));
        proof {
            crate::processor::walk::lemma_list_step(*processor, rest, state@);
            rest = rest.rest();
        }
        process_value(&mut self.6, processor, &child)?;
        let child = state.enter_index(7, None, for_field(&self.7));
        proof {
            crate::processor::walk::lemma_list_step(*processor, rest, state@);
            rest = rest.rest();
        }
        process_value(&mut self.7, processor, &child)?;
        let child = state.enter_index(8, None, for_field(&self.8));
        proof {
            crate::processor::walk::lemma_list_step(*processor, rest, state@);
            rest = rest.rest();
        }
        process_value(&mut self.8, processor, &child)?;
        proof {
            crate::processor::walk::lemma_list_step(*processor, rest, state@);
        }
        Ok(())
    }
}

impl<
    T1: Node,
    T2: Node,
    T3: Node,
    T4: Node,
    T5: Node,
    T6: Node,
    T7: Node,
    T8: Node,
    T9: Node,
    T10: Node,
> Node for (
    Annotated<T1>,
    Annotated<T2>,
    Annotated<T3>,
    Annotated<T4>,
    Annotated<T5>,
    Annotated<T6>,
    Annotated<T7>,
    Annotated<T8>,
    Annotated<T9>,
    Annotated<T10>,
) {
    open spec fn tree(&self) -> Tree {
        tuple_tree(
            model::cons(slot_at(0, self.0), model::cons(slot_at(1, self.1),
                model::cons(slot_at(2, self.2), model::cons(slot_at(3, self.3),
                model::cons(slot_at(4, self.4), model::cons(slot_at(5, self.5),
                model::cons(slot_at(6, self.6), model::cons(slot_at(7, self.7),
                model::cons(slot_at(8, self.8), model::cons(slot_at(9, self.9),
                ChildList::Nil)))))))))),
        )
    }
}

impl<
    T1: ProcessValue,
    T2: ProcessValue,
    T3: ProcessValue,
    T4: ProcessValue,
    T5: ProcessValue,
    T6: ProcessValue,
    T7: ProcessValue,
    T8: ProcessValue,
    T9: ProcessValue,
    T10: ProcessValue,
> ProcessValue for (
    Annotated<T1>,
    Annotated<T2>,
    Annotated<T3>,
    Annotated<T4>,
    Annotated<T5>,
    Annotated<T6>,
    Annotated<T7>,
    Annotated<T8>,
    Annotated<T9>,
    Annotated<T10>,
) {
    fn value_type(&self) -> (r: ValueTypeSet) {
        ValueTypeSet::only(ValueType::Array)
    }

    fn process_value<P: Processor>(
        &mut self,
        meta: &mut Meta,
        processor: &mut P,
        state: &ProcessingState<'_>,
    ) -> (r: ProcessingResult) {
        self.process_child_values(processor, state)
    }

    fn process_child_values<P: Processor>(
        &mut self,
        processor: &mut P,
        state: &ProcessingState<'_>,
    ) -> (r: ProcessingResult) {
        let ghost mut rest =
            model::cons(slot_at(0, self.0), model::cons(slot_at(1, self.1),
                model::cons(slot_at(2, self.2), model::cons(slot_at(3, self.3),
                model::cons(slot_at(4, self.4), model::cons(slot_at(5, self.5),
                model::cons(slot_at(6, self.6), model::cons(slot_at(7, self.7),
                model::cons(slot_at(8, self.8), model::cons(slot_at(9, self.9),
                ChildList::Nil))))))))));
        proof {
            crate::processor::walk::lemma_visit_list(*processor, rest, state@);
        }
        let child = state.enter_index(0, None, for_field(&self.0));
        proof {
            crate::processor::walk::lemma_list_step(*processor, rest, state@);
            rest = rest.rest();
        }
        process_value(&mut self.0, processor, &child)?;
        let child = state.enter_index(1, None, for_field(&self.1));
        proof {
            crate::processor::walk::lemma_list_step(*processor, rest, state@);
            rest = rest.rest();
        }
        process_value(&mut self.1, processor, &child)?;
        let child = state.enter_index(2, None, for_field(&self.2));
        proof {
            crate::processor::walk::lemma_list_step(*processor, rest, state@);
            rest = rest.rest();
        }
        process_value(&mut self.2, processor, &child)?;
        let child = state.enter_index(3, None, for_field(&self.3));
        proof {
            crate::processor::walk::lemma_list_step(*processor, rest, state@);
            rest = rest.rest();
        }
        process_value(&mut self.3, processor, &child)?;
        let child = state.enter_index(4, None, for_field(&self.4));
        proof {
            crate::processor::walk::lemma_list_step(*processor, rest, state@);
            rest = rest.rest();
        }
        process_value(&mut self.4, processor, &child)?;
        let child = state.enter_index(5, None, for_field(&self.5));
        proof {
            crate::processor::walk::lemma_list_step(*processor, rest, state@);
            rest = rest.rest();
        }
        process_value(&mut self.5, processor, &child)?;
        let child = state.enter_index(6, None, for_field(&self.6));
        proof {
            crate::processor::walk::lemma_list_step(*processor, rest, state@);
            rest = rest.rest();
        }
        process_value(&mut self.6, processor, &child)?;
        let child = state.enter_index(7, None, for_field(&self.7));
        proof {
            crate::processor::walk::lemma_list_step(*processor, rest, state@);
            rest = rest.rest();
        }
        process_value(&mut self.7, processor, &child)?;
        let child = state.enter_index(8, None, for_field(&self.8));
        proof {
            crate::processor::walk::lemma_list_step(*processor, rest, state@);
            rest = rest.rest();
        }
        process_value(&mut self.8, processor, &child)?;
        let child = state.enter_index(9, None, for_field(&self.9));
        proof {
            crate::processor::walk::lemma_list_step(*processor, rest, state@);
            rest = rest.rest();
        }
        process_value(&mut self.9, processor, &child)?;
        proof {
            crate::processor::walk::lemma_list_step(*processor, rest, state@);
        }
        Ok(())
    }
}

impl<
    T1: Node,
    T2: Node,
    T3: Node,
    T4: Node,
    T5: Node,
    T6: Node,
    T7: Node,
    T8: Node,
    T9: Node,
    T10: Node,
    T11: Node,
> Node for (
    Annotated<T1>,
    Annotated<T2>,
    Annotated<T3>,
    Annotated<T4>,
    Annotated<T5>,
    Annotated<T6>,
    Annotated<T7>,
    Annotated<T8>,
    Annotated<T9>,
    Annotated<T10>,
    Annotated<T11>,
) {
    open spec fn tree(&self) -> Tree {
        tuple_tree(
            model::cons(slot_at(0, self.0), model::cons(slot_at(1, self.1),
                model::cons(slot_at(2, self.2), model::cons(slot_at(3, self.3),
                model::cons(slot_at(4, self.4), model::cons(slot_at(5, self.5),
                model::cons(slot_at(6, self.6), model::cons(slot_at(7, self.7),
                model::cons(slot_at(8, self.8), model::cons(slot_at(9, self.9),
                model::cons(slot_at(10, self.10), ChildList::Nil))))))))))),
        )
    }
}

impl<
    T1: ProcessValue,
    T2: ProcessValue,
    T3: ProcessValue,
    T4: ProcessValue,
    T5: ProcessValue,
    T6: ProcessValue,
    T7: ProcessValue,
    T8: ProcessValue,
    T9: ProcessValue,
    T10: ProcessValue,
    T11: ProcessValue,
> ProcessValue for (
    Annotated<T1>,
    Annotated<T2>,
    Annotated<T3>,
    Annotated<T4>,
    Annotated<T5>,
    Annotated<T6>,
    Annotated<T7>,
    Annotated<T8>,
    Annotated<T9>,
    Annotated<T10>,
    Annotated<T11>,
) {
    fn value_type(&self) -> (r: ValueTypeSet) {
        ValueTypeSet::only(ValueType::Array)
    }

    fn process_value<P: Processor>(
        &mut self,
        meta: &mut Meta,
        processor: &mut P,
        state: &ProcessingState<'_>,
    ) -> (r: ProcessingResult) {
        self.process_child_values(processor, state)
    }

    fn process_child_values<P: Processor>(
        &mut self,
        processor: &mut P,
        state: &ProcessingState<'_>,
    ) -> (r: ProcessingResult) {
        let ghost mut rest =
            model::cons(slot_at(0, self.0), model::cons(slot_at(1, self.1),
                model::cons(slot_at(2, self.2), model::cons(slot_at(3, self.3),
                model::cons(slot_at(4, self.4), model::cons(slot_at(5, self.5),
                model::cons(slot_at(6, self.6), model::cons(slot_at(7, self.7),
                model::cons(slot_at(8, self.8), model::cons(slot_at(9, self.9),
                model::cons(slot_at(10, self.10), ChildList::Nil)))))))))));
        proof {
            crate::processor::walk::lemma_visit_list(*processor, rest, state@);
        }
        let child = state.enter_index(0, None, for_field(&self.0));
        proof {
            crate::processor::walk::lemma_list_step(*processor, rest, state@);
            rest = rest.rest();
        }
        process_value(&mut self.0, processor, &child)?;
        let child = state.enter_index(1, None, for_field(&self.1));
        proof {
            crate::processor::walk::lemma_list_step(*processor, rest, state@);
            rest = rest.rest();
        }
        process_value(&mut self.1, processor, &child)?;
        let child = state.enter_index(2, None, for_field(&self.2));
        proof {
            crate::processor::walk::lemma_list_step(*processor, rest, state@);
            rest = rest.rest();
        }
        process_value(&mut self.2, processor, &child)?;
        let child = state.enter_index(3, None, for_field(&self.3));
        proof {
            crate::processor::walk::lemma_list_step(*processor, rest, state@);
            rest = rest.rest();
        }
        process_value(&mut self.3, processor, &child)?;
        let child = state.enter_index(4, None, for_field(&self.4));
        proof {
            crate::processor::walk::lemma_list_step(*processor, rest, state@);
            rest = rest.rest();
        }
        process_value(&mut self.4, processor, &child)?;
        let child = state.enter_index(5, None, for_field(&self.5));
        proof {
            crate::processor::walk::lemma_list_step(*processor, rest, state@);
            rest = rest.rest();
        }
        process_value(&mut self.5, processor, &child)?;
        let child = state.enter_index(6, None, for_field(&self.6));
        proof {
            crate::processor::walk::lemma_list_step(*processor, rest, state@);
            rest = rest.rest();
        }
        process_value(&mut self.6, processor, &child)?;
        let child = state.enter_index(7, None, for_field(&self.7));
        proof {
            crate::processor::walk::lemma_list_step(*processor, rest, state@);
            rest = rest.rest();
        }
        process_value(&mut self.7, processor, &child)?;
        let child = state.enter_index(8, None, for_field(&self.8));
        proof {
            crate::processor::walk::lemma_list_step(*processor, rest, state@);
            rest = rest.rest();
        }
        process_value(&mut self.8, processor, &child)?;
        let child = state.enter_index(9, None, for_field(&self.9));
        proof {
            crate::processor::walk::lemma_list_step(*processor, rest, state@);
            rest = rest.rest();
        }
        process_value(&mut self.9, processor, &child)?;
        let child = state.enter_index(10, None, for_field(&self.10));
        proof {
            crate::processor::walk::lemma_list_step(*processor, rest, state@);
            rest = rest.rest();
        }
        process_value(&mut self.10, processor, &child)?;
        proof {
            crate::processor::walk::lemma_list_step(*processor, rest, state@);
        }
        Ok(())
    }
}

impl<
    T1: Node,
    T2: Node,
    T3: Node,
    T4: Node,
    T5: Node,
    T6: Node,
    T7: Node,
    T8: Node,
    T9: Node,
    T10: Node,
    T11: Node,
    T12: Node,
> Node for (
    Annotated<T1>,
    Annotated<T2>,
    Annotated<T3>,
    Annotated<T4>,
    Annotated<T5>,
    Annotated<T6>,
    Annotated<T7>,
    Annotated<T8>,
    Annotated<T9>,
    Annotated<T10>,
    Annotated<T11>,
    Annotated<T12>,
) {
    open spec fn tree(&self) -> Tree {
        tuple_tree(
            model::cons(slot_at(0, self.0), model::cons(slot_at(1, self.1),
                model::cons(slot_at(2, self.2), model::cons(slot_at(3, self.3),
                model::cons(slot_at(4, self.4), model::cons(slot_at(5, self.5),
                model::cons(slot_at(6, self.6), model::cons(slot_at(7, self.7),
                model::cons(slot_at(8, self.8), model::cons(slot_at(9, self.9),
                model::cons(slot_at(10, self.10), model::cons(slot_at(11, self.11),
                ChildList::Nil)))))))))))),
        )
    }
}

impl<
    T1: ProcessValue,
    T2: ProcessValue,
    T3: ProcessValue,
    T4: ProcessValue,
    T5: ProcessValue,
    T6: ProcessValue,
    T7: ProcessValue,
    T8: ProcessValue,
    T9: ProcessValue,
    T10: ProcessValue,
    T11: ProcessValue,
    T12: ProcessValue,
> ProcessValue for (
    Annotated<T1>,
    Annotated<T2>,
    Annotated<T3>,
    Annotated<T4>,
    Annotated<T5>,
    Annotated<T6>,
    Annotated<T7>,
    Annotated<T8>,
    Annotated<T9>,
    Annotated<T10>,
    Annotated<T11>,
    Annotated<T12>,
) {
    fn value_type(&self) -> (r: ValueTypeSet) {
        ValueTypeSet::only(ValueType::Array)
    }

    fn process_value<P: Processor>(
        &mut self,
        meta: &mut Meta,
        processor: &mut P,
        state: &ProcessingState<'_>,
    ) -> (r: ProcessingResult) {
        self.process_child_values(processor, state)
    }

    fn process_child_values<P: Processor>(
        &mut self,
        processor: &mut P,
        state: &ProcessingState<'_>,
    ) -> (r: ProcessingResult) {
        let ghost mut rest =
            model::cons(slot_at(0, self.0), model::cons(slot_at(1, self.1),
                model::cons(slot_at(2, self.2), model::cons(slot_at(3, self.3),
                model::cons(slot_at(4, self.4), model::cons(slot_at(5, self.5),
                model::cons(slot_at(6, self.6), model::cons(slot_at(7, self.7),
                model::cons(slot_at(8, self.8), model::cons(slot_at(9, self.9),
                model::cons(slot_at(10, self.10), model::cons(slot_at(11, self.11),
                ChildList::Nil))))))))))));
        proof {
            crate::processor::walk::lemma_visit_list(*processor, rest, state@);
        }
        let child = state.enter_index(0, None, for_field(&self.0));
        proof {
            crate::processor::walk::lemma_list_step(*processor, rest, state@);
            rest = rest.rest();
        }
        process_value(&mut self.0, processor, &child)?;
        let child = state.enter_index(1, None, for_field(&self.1));
        proof {
            crate::processor::walk::lemma_list_step(*processor, rest, state@);
            rest = rest.rest();
        }
        process_value(&mut self.1, processor, &child)?;
        let child = state.enter_index(2, None, for_field(&self.2));
        proof {
            crate::processor::walk::lemma_list_step(*processor, rest, state@);
            rest = rest.rest();
        }
        process_value(&mut self.2, processor, &child)?;
        let child = state.enter_index(3, None, for_field(&self.3));
        proof {
            crate::processor::walk::lemma_list_step(*processor, rest, state@);
            rest = rest.rest();
        }
        process_value(&mut self.3, processor, &child)?;
        let child = state.enter_index(4, None, for_field(&self.4));
        proof {
            crate::processor::walk::lemma_list_step(*processor, rest, state@);
            rest = rest.rest();
        }
        process_value(&mut self.4, processor, &child)?;
        let child = state.enter_index(5, None, for_field(&self.5));
        proof {
            crate::processor::walk::lemma_list_step(*processor, rest, state@);
            rest = rest.rest();
        }
        process_value(&mut self.5, processor, &child)?;
        let child = state.enter_index(6, None, for_field(&self.6));
        proof {
            crate::processor::walk::lemma_list_step(*processor, rest, state@);
            rest = rest.rest();
        }
        process_value(&mut self.6, processor, &child)?;
        let child = state.enter_index(7, None, for_field(&self.7));
        proof {
            crate::processor::walk::lemma_list_step(*processor, rest, state@);
            rest = rest.rest();
        }
        process_value(&mut self.7, processor, &child)?;
        let child = state.enter_index(8, None, for_field(&self.8));
        proof {
            crate::processor::walk::lemma_list_step(*processor, rest, state@);
            rest = rest.rest();
        }
        process_value(&mut self.8, processor, &child)?;
        let child = state.enter_index(9, None, for_field(&self.9));
        proof {
            crate::processor::walk::lemma_list_step(*processor, rest, state@);
            rest = rest.rest();
        }
        process_value(&mut self.9, processor, &child)?;
        let child = state.enter_index(10, None, for_field(&self.10));
        proof {
            crate::processor::walk::lemma_list_step(*processor, rest, state@);
            rest = rest.rest();
        }
        process_value(&mut self.10, processor, &child)?;
        let child = state.enter_index(11, None, for_field(&self.11));
        proof {
            crate::processor::walk::lemma_list_step(*processor, rest, state@);
            rest = rest.rest();
        }
        process_value(&mut self.11, processor, &child)?;
        proof {
            crate::processor::walk::lemma_list_step(*processor, rest, state@);
        }
        Ok(())
    }
}

} // verus!
