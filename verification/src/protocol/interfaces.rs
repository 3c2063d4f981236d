//! The interfaces of an event: what an event can say of the log message, the request and the SDK.

use crate::annotated::Annotated;
use crate::attrs::{FieldAttrs, Pii};
use crate::meta::Meta;
use crate::processor::action::{settled, Descent, ProcessingResult};
use crate::processor::impls::{for_field, process_value};
use crate::processor::model::{self, Bag, ChildList, Hook, Tree};
use crate::processor::state::ProcessingState;
use crate::processor::traits::{self, Node, ProcessValue, Processor};
use crate::value::{Object, Value};
use crate::value_type::ValueTypeSet;
use crate::number::FiniteF64;
use crate::protocol::types::{Message, TransactionSource};
use crate::protocol::pairs::Headers;
use crate::value::Array;
use vstd::prelude::*;

verus! {

/// A log message, as it was written and as it reads with its parameters filled in.
#[derive(Debug)]
pub struct LogEntry {
    /// The message with its placeholders.
    pub message: Annotated<Message>,
    /// The message with the parameters filled in.
    pub formatted: Annotated<Message>,
    /// The parameters of the message.
    pub params: Annotated<Value>,
    /// Additional fields that the schema does not declare.
    pub other: Object<Value>,
}

impl Default for LogEntry {
    /// The value in which every field is absent.
    fn default() -> (r: LogEntry)
        ensures
            r.message.blank(),
            r.formatted.blank(),
            r.params.blank(),
            r.other@.len() == 0,
    {
        LogEntry {
            message: Annotated::empty(),
            formatted: Annotated::empty(),
            params: Annotated::empty(),
            other: Object::new(),
        }
    }
}

impl LogEntry {
    /// The declared fields as children, in the order of their declaration.
    pub open spec fn fields(&self) -> ChildList {
        let message = model::field(
            "message"@,
            FieldAttrs::new().max_chars(8192).max_chars_allowance(200).pii(Pii::Maybe),
            traits::slot_of(self.message),
        );
        let formatted = model::field(
            "formatted"@,
            FieldAttrs::new().max_chars(8192).max_chars_allowance(200).pii(Pii::True),
            traits::slot_of(self.formatted),
        );
        let params = model::field(
            "params"@,
            FieldAttrs::new().pii(Pii::True),
            traits::slot_of(self.params),
        );
        model::cons(message, model::cons(formatted, model::cons(params, ChildList::Nil)))
    }
}

impl Node for LogEntry {
    open spec fn tree(&self) -> Tree {
        Tree::Branch {
            hook: Some(Hook::LogEntry),
            kind: Set::empty(),
            children: self.fields().seq(),
            bag: Some(
                Bag {
                    attrs: FieldAttrs::new().additional_properties().pii(Pii::True),
                    entries: crate::processor::impls::entries_of(self.other@),
                },
            ),
        }
    }
}

impl ProcessValue for LogEntry {
    fn value_type(&self) -> (r: ValueTypeSet) {
        ValueTypeSet::empty()
    }

    fn process_value<P: Processor>(
        &mut self,
        meta: &mut Meta,
        processor: &mut P,
        state: &ProcessingState<'_>,
    ) -> (r: ProcessingResult) {
        match processor.process_logentry(&*self, meta, state) {
            Ok(Descent::Recurse) => self.process_child_values(processor, state),
            answer => settled(answer),
        }
    }

    fn process_child_values<P: Processor>(
        &mut self,
        processor: &mut P,
        state: &ProcessingState<'_>,
    ) -> (r: ProcessingResult) {
        let ghost mut rest = self.fields();
        proof {
            crate::processor::walk::lemma_visit_list(*processor, rest, state@);
        }
        let ghost bag = self.other;
        let child = state.enter_static(
            "message",
            Some(FieldAttrs::new().max_chars(8192).max_chars_allowance(200).pii(Pii::Maybe)),
            for_field(&self.message),
        );
        proof {
            crate::processor::walk::lemma_list_step(*processor, rest, state@);
            rest = rest.rest();
        }
        process_value(&mut self.message, processor, &child)?;
        let child = state.enter_static(
            "formatted",
            Some(FieldAttrs::new().max_chars(8192).max_chars_allowance(200).pii(Pii::True)),
            for_field(&self.formatted),
        );
        proof {
            crate::processor::walk::lemma_list_step(*processor, rest, state@);
            rest = rest.rest();
        }
        process_value(&mut self.formatted, processor, &child)?;
        let child = state.enter_static(
            "params",
            Some(FieldAttrs::new().pii(Pii::True)),
            for_field(&self.params),
        );
        proof {
            crate::processor::walk::lemma_list_step(*processor, rest, state@);
            rest = rest.rest();
        }
        process_value(&mut self.params, processor, &child)?;
        proof {
            crate::processor::walk::lemma_list_step(*processor, rest, state@);
        }
        let bag_state = state.enter_nothing(
            Some(FieldAttrs::new().additional_properties().pii(Pii::True)),
        );
        match processor.process_other(&self.other, &bag_state) {
            Ok(Descent::Recurse) => {
                let ghost asked = *processor;
                let r = self.other.process_child_values(processor, &bag_state);
                proof {
                    let below = crate::processor::walk::visit_children(
                        asked,
                        crate::processor::traits::Node::tree(&bag),
                        bag_state@,
                    );
                    assert(below.tree == crate::processor::traits::Node::tree(&self.other));
                }
                r
            },
            answer => settled(answer),
        }
    }
}

/// The HTTP request that was served when the event occurred.
#[derive(Debug)]
pub struct Request {
    /// The URL of the request.
    pub url: Annotated<String>,
    /// The HTTP method of the request.
    pub method: Annotated<String>,
    /// The headers of the request.
    pub headers: Annotated<Headers>,
    /// Additional fields that the schema does not declare.
    pub other: Object<Value>,
}

impl Default for Request {
    /// The value in which every field is absent.
    fn default() -> (r: Request)
        ensures
            r.url.blank(),
            r.method.blank(),
            r.headers.blank(),
            r.other@.len() == 0,
    {
        Request {
            url: Annotated::empty(),
            method: Annotated::empty(),
            headers: Annotated::empty(),
            other: Object::new(),
        }
    }
}

impl Request {
    /// The declared fields as children, in the order of their declaration.
    pub open spec fn fields(&self) -> ChildList {
        let url = model::field(
            "url"@,
            FieldAttrs::new().pii(Pii::Maybe),
            traits::slot_of(self.url),
        );
        let method = model::field(
            "method"@,
            FieldAttrs::new(),
            traits::slot_of(self.method),
        );
        let headers = model::field(
            "headers"@,
            FieldAttrs::new().pii(Pii::True),
            traits::slot_of(self.headers),
        );
        model::cons(url, model::cons(method, model::cons(headers, ChildList::Nil)))
    }
}

impl Node for Request {
    open spec fn tree(&self) -> Tree {
        Tree::Branch {
            hook: Some(Hook::Request),
            kind: Set::empty(),
            children: self.fields().seq(),
            bag: Some(
                Bag {
                    attrs: FieldAttrs::new().additional_properties().pii(Pii::True),
                    entries: crate::processor::impls::entries_of(self.other@),
                },
            ),
        }
    }
}

impl ProcessValue for Request {
    fn value_type(&self) -> (r: ValueTypeSet) {
        ValueTypeSet::empty()
    }

    fn process_value<P: Processor>(
        &mut self,
        meta: &mut Meta,
        processor: &mut P,
        state: &ProcessingState<'_>,
    ) -> (r: ProcessingResult) {
        match processor.process_request(&*self, meta, state) {
            Ok(Descent::Recurse) => self.process_child_values(processor, state),
            answer => settled(answer),
        }
    }

    fn process_child_values<P: Processor>(
        &mut self,
        processor: &mut P,
        state: &ProcessingState<'_>,
    ) -> (r: ProcessingResult) {
        let ghost mut rest = self.fields();
        proof {
            crate::processor::walk::lemma_visit_list(*processor, rest, state@);
        }
        let ghost bag = self.other;
        let child = state.enter_static(
            "url",
            Some(FieldAttrs::new().pii(Pii::Maybe)),
            for_field(&self.url),
        );
        proof {
            crate::processor::walk::lemma_list_step(*processor, rest, state@);
            rest = rest.rest();
        }
        process_value(&mut self.url, processor, &child)?;
        let child = state.enter_static(
            "method",
            Some(FieldAttrs::new()),
            for_field(&self.method),
        );
        proof {
            crate::processor::walk::lemma_list_step(*processor, rest, state@);
            rest = rest.rest();
        }
        process_value(&mut self.method, processor, &child)?;
        let child = state.enter_static(
            "headers",
            Some(FieldAttrs::new().pii(Pii::True)),
            for_field(&self.headers),
        );
        proof {
            crate::processor::walk::lemma_list_step(*processor, rest, state@);
            rest = rest.rest();
        }
        process_value(&mut self.headers, processor, &child)?;
        proof {
            crate::processor::walk::lemma_list_step(*processor, rest, state@);
        }
        let bag_state = state.enter_nothing(
            Some(FieldAttrs::new().additional_properties().pii(Pii::True)),
        );
        match processor.process_other(&self.other, &bag_state) {
            Ok(Descent::Recurse) => {
                let ghost asked = *processor;
                let r = self.other.process_child_values(processor, &bag_state);
                proof {
                    let below = crate::processor::walk::visit_children(
                        asked,
                        crate::processor::traits::Node::tree(&bag),
                        bag_state@,
                    );
                    assert(below.tree == crate::processor::traits::Node::tree(&self.other));
                }
                r
            },
            answer => settled(answer),
        }
    }
}

/// The SDK that sent the event.
#[derive(Debug)]
pub struct ClientSdkInfo {
    /// The name of the SDK.
    pub name: Annotated<String>,
    /// The version of the SDK.
    pub version: Annotated<String>,
    /// Additional fields that the schema does not declare.
    pub other: Object<Value>,
}

impl Default for ClientSdkInfo {
    /// The value in which every field is absent.
    fn default() -> (r: ClientSdkInfo)
        ensures
            r.name.blank(),
            r.version.blank(),
            r.other@.len() == 0,
    {
        ClientSdkInfo {
            name: Annotated::empty(),
            version: Annotated::empty(),
            other: Object::new(),
        }
    }
}

impl ClientSdkInfo {
    /// The declared fields as children, in the order of their declaration.
    pub open spec fn fields(&self) -> ChildList {
        let name = model::field(
            "name"@,
            FieldAttrs::new().required(true).max_chars(256).max_chars_allowance(20),
            traits::slot_of(self.name),
        );
        let version = model::field(
            "version"@,
            FieldAttrs::new().required(true).max_chars(256).max_chars_allowance(20),
            traits::slot_of(self.version),
        );
        model::cons(name, model::cons(version, ChildList::Nil))
    }
}

impl Node for ClientSdkInfo {
    open spec fn tree(&self) -> Tree {
        Tree::Branch {
            hook: Some(Hook::ClientSdkInfo),
            kind: Set::empty(),
            children: self.fields().seq(),
            bag: Some(
                Bag {
                    attrs: FieldAttrs::new().additional_properties(),
                    entries: crate::processor::impls::entries_of(self.other@),
                },
            ),
        }
    }
}

impl ProcessValue for ClientSdkInfo {
    fn value_type(&self) -> (r: ValueTypeSet) {
        ValueTypeSet::empty()
    }

    fn process_value<P: Processor>(
        &mut self,
        meta: &mut Meta,
        processor: &mut P,
        state: &ProcessingState<'_>,
    ) -> (r: ProcessingResult) {
        match processor.process_client_sdk_info(&*self, meta, state) {
            Ok(Descent::Recurse) => self.process_child_values(processor, state),
            answer => settled(answer),
        }
    }

    fn process_child_values<P: Processor>(
        &mut self,
        processor: &mut P,
        state: &ProcessingState<'_>,
    ) -> (r: ProcessingResult) {
        let ghost mut rest = self.fields();
        proof {
            crate::processor::walk::lemma_visit_list(*processor, rest, state@);
        }
        let ghost bag = self.other;
        let child = state.enter_static(
            "name",
            Some(FieldAttrs::new().required(true).max_chars(256).max_chars_allowance(20)),
            for_field(&self.name),
        );
        proof {
            crate::processor::walk::lemma_list_step(*processor, rest, state@);
            rest = rest.rest();
        }
        process_value(&mut self.name, processor, &child)?;
        let child = state.enter_static(
            "version",
            Some(FieldAttrs::new().required(true).max_chars(256).max_chars_allowance(20)),
            for_field(&self.version),
        );
        proof {
            crate::processor::walk::lemma_list_step(*processor, rest, state@);
            rest = rest.rest();
        }
        process_value(&mut self.version, processor, &child)?;
        proof {
            crate::processor::walk::lemma_list_step(*processor, rest, state@);
        }
        let bag_state = state.enter_nothing(Some(FieldAttrs::new().additional_properties()));
        match processor.process_other(&self.other, &bag_state) {
            Ok(Descent::Recurse) => {
                let ghost asked = *processor;
                let r = self.other.process_child_values(processor, &bag_state);
                proof {
                    let below = crate::processor::walk::visit_children(
                        asked,
                        crate::processor::traits::Node::tree(&bag),
                        bag_state@,
                    );
                    assert(below.tree == crate::processor::traits::Node::tree(&self.other));
                }
                r
            },
            answer => settled(answer),
        }
    }
}

/// What is known of the name of a transaction.
#[derive(Debug)]
pub struct TransactionInfo {
    /// Where the name of the transaction came from.
    pub source: Annotated<TransactionSource>,
    /// The name of the transaction before it was changed.
    pub original: Annotated<String>,
}

impl Default for TransactionInfo {
    /// The value in which every field is absent.
    fn default() -> (r: TransactionInfo)
        ensures
            r.source.blank(),
            r.original.blank(),
    {
        TransactionInfo {
            source: Annotated::empty(),
            original: Annotated::empty(),
        }
    }
}

impl TransactionInfo {
    /// The declared fields as children, in the order of their declaration.
    pub open spec fn fields(&self) -> ChildList {
        let source = model::field(
            "source"@,
            FieldAttrs::new(),
            traits::slot_of(self.source),
        );
        let original = model::field(
            "original"@,
            FieldAttrs::new().max_chars(200),
            traits::slot_of(self.original),
        );
        model::cons(source, model::cons(original, ChildList::Nil))
    }
}

impl Node for TransactionInfo {
    open spec fn tree(&self) -> Tree {
        Tree::Branch { hook: None, kind: Set::empty(), children: self.fields().seq(), bag: None }
    }
}

impl ProcessValue for TransactionInfo {
    fn value_type(&self) -> (r: ValueTypeSet) {
        ValueTypeSet::empty()
    }

    fn process_value<P: Processor>(
        &mut self,
        meta: &mut Meta,
        processor: &mut P,
        state: &ProcessingState<'_>,
    ) -> (r: ProcessingResult) {
        self.process_child_values(processor, state)
    }

    fn process_child_values<P: Processor>(
        &mut self,
        processor: &mut P,
        state: &ProcessingState<'_>,
    ) -> (r: ProcessingResult) {
        let ghost mut rest = self.fields();
        proof {
            crate::processor::walk::lemma_visit_list(*processor, rest, state@);
        }
        let child = state.enter_static(
            "source",
            Some(FieldAttrs::new()),
            for_field(&self.source),
        );
        proof {
            crate::processor::walk::lemma_list_step(*processor, rest, state@);
            rest = rest.rest();
        }
        process_value(&mut self.source, processor, &child)?;
        let child = state.enter_static(
            "original",
            Some(FieldAttrs::new().max_chars(200)),
            for_field(&self.original),
        );
        proof {
            crate::processor::walk::lemma_list_step(*processor, rest, state@);
            rest = rest.rest();
        }
        process_value(&mut self.original, processor, &child)?;
        proof {
            crate::processor::walk::lemma_list_step(*processor, rest, state@);
        }
        Ok(())
    }
}

/// One measured value.
#[derive(Debug)]
pub struct Measurement {
    /// The measured value.
    pub value: Annotated<FiniteF64>,
    /// The unit of the value.
    pub unit: Annotated<String>,
}

impl Default for Measurement {
    /// The value in which every field is absent.
    fn default() -> (r: Measurement)
        ensures
            r.value.blank(),
            r.unit.blank(),
    {
        Measurement {
            value: Annotated::empty(),
            unit: Annotated::empty(),
        }
    }
}

impl Measurement {
    /// The declared fields as children, in the order of their declaration.
    pub open spec fn fields(&self) -> ChildList {
        let value = model::field(
            "value"@,
            FieldAttrs::new().required(true),
            traits::slot_of(self.value),
        );
        let unit = model::field(
            "unit"@,
            FieldAttrs::new(),
            traits::slot_of(self.unit),
        );
        model::cons(value, model::cons(unit, ChildList::Nil))
    }
}

impl Node for Measurement {
    open spec fn tree(&self) -> Tree {
        Tree::Branch { hook: None, kind: Set::empty(), children: self.fields().seq(), bag: None }
    }
}

impl ProcessValue for Measurement {
    fn value_type(&self) -> (r: ValueTypeSet) {
        ValueTypeSet::empty()
    }

    fn process_value<P: Processor>(
        &mut self,
        meta: &mut Meta,
        processor: &mut P,
        state: &ProcessingState<'_>,
    ) -> (r: ProcessingResult) {
        self.process_child_values(processor, state)
    }

    fn process_child_values<P: Processor>(
        &mut self,
        processor: &mut P,
        state: &ProcessingState<'_>,
    ) -> (r: ProcessingResult) {
        let ghost mut rest = self.fields();
        proof {
            crate::processor::walk::lemma_visit_list(*processor, rest, state@);
        }
        let child = state.enter_static(
            "value",
            Some(FieldAttrs::new().required(true)),
            for_field(&self.value),
        );
        proof {
            crate::processor::walk::lemma_list_step(*processor, rest, state@);
            rest = rest.rest();
        }
        process_value(&mut self.value, processor, &child)?;
        let child = state.enter_static(
            "unit",
            Some(FieldAttrs::new()),
            for_field(&self.unit),
        );
        proof {
            crate::processor::walk::lemma_list_step(*processor, rest, state@);
            rest = rest.rest();
        }
        process_value(&mut self.unit, processor, &child)?;
        proof {
            crate::processor::walk::lemma_list_step(*processor, rest, state@);
        }
        Ok(())
    }
}

/// A list of values of one interface, with whatever else came with the list.
#[derive(Debug)]
pub struct Values<T> {
    /// The values.
    pub values: Annotated<Array<T>>,
    /// Additional fields that the schema does not declare.
    pub other: Object<Value>,
}

impl<T> Default for Values<T> {
    /// The value in which every field is absent.
    fn default() -> (r: Values<T>)
        ensures
            r.values.blank(),
            r.other@.len() == 0,
    {
        Values {
            values: Annotated::empty(),
            other: Object::new(),
        }
    }
}

impl<T: Node> Values<T> {
    /// The declared fields as children, in the order of their declaration.
    pub open spec fn fields(&self) -> ChildList {
        let values = model::field(
            "values"@,
            FieldAttrs::new().required(true),
            traits::slot_of(self.values),
        );
        model::cons(values, ChildList::Nil)
    }
}

impl<T: Node> Node for Values<T> {
    open spec fn tree(&self) -> Tree {
        Tree::Branch {
            hook: Some(Hook::Values),
            kind: Set::empty(),
            children: self.fields().seq(),
            bag: Some(
                Bag {
                    attrs: FieldAttrs::new().additional_properties(),
                    entries: crate::processor::impls::entries_of(self.other@),
                },
            ),
        }
    }
}

impl<T: ProcessValue> ProcessValue for Values<T> {
    fn value_type(&self) -> (r: ValueTypeSet) {
        ValueTypeSet::empty()
    }

    fn process_value<P: Processor>(
        &mut self,
        meta: &mut Meta,
        processor: &mut P,
        state: &ProcessingState<'_>,
    ) -> (r: ProcessingResult) {
        match processor.process_values(&*self, meta, state) {
            Ok(Descent::Recurse) => self.process_child_values(processor, state),
            answer => settled(answer),
        }
    }

    fn process_child_values<P: Processor>(
        &mut self,
        processor: &mut P,
        state: &ProcessingState<'_>,
    ) -> (r: ProcessingResult) {
        let ghost mut rest = self.fields();
        proof {
            crate::processor::walk::lemma_visit_list(*processor, rest, state@);
        }
        let ghost bag = self.other;
        let child = state.enter_static(
            "values",
            Some(FieldAttrs::new().required(true)),
            for_field(&self.values),
        );
        proof {
            crate::processor::walk::lemma_list_step(*processor, rest, state@);
            rest = rest.rest();
        }
        process_value(&mut self.values, processor, &child)?;
        proof {
            crate::processor::walk::lemma_list_step(*processor, rest, state@);
        }
        let bag_state = state.enter_nothing(Some(FieldAttrs::new().additional_properties()));
        match processor.process_other(&self.other, &bag_state) {
            Ok(Descent::Recurse) => {
                let ghost asked = *processor;
                let r = self.other.process_child_values(processor, &bag_state);
                proof {
                    let below = crate::processor::walk::visit_children(
                        asked,
                        crate::processor::traits::Node::tree(&bag),
                        bag_state@,
                    );
                    assert(below.tree == crate::processor::traits::Node::tree(&self.other));
                }
                r
            },
            answer => settled(answer),
        }
    }
}

/// The measured values of a transaction, by name.
#[derive(Debug)]
pub struct Measurements(pub Object<Measurement>);

impl Node for Measurements {
    open spec fn tree(&self) -> Tree {
        Tree::Newtype { hook: None, attrs: None, inner: Box::new(self.0.tree()) }
    }
}

impl ProcessValue for Measurements {
    fn value_type(&self) -> (r: ValueTypeSet) {
        proof {
            reveal_with_fuel(Tree::kind, 2);
        }
        self.0.value_type()
    }

    fn process_value<P: Processor>(
        &mut self,
        meta: &mut Meta,
        processor: &mut P,
        state: &ProcessingState<'_>,
    ) -> (r: ProcessingResult) {
        let inner = state.enter_nothing(None);
        self.0.process_value(meta, processor, &inner)
    }

    fn process_child_values<P: Processor>(
        &mut self,
        processor: &mut P,
        state: &ProcessingState<'_>,
    ) -> (r: ProcessingResult) {
        Ok(())
    }
}

/// The breakdowns of a transaction: named groups of measured values.
#[derive(Debug)]
pub struct Breakdowns(pub Object<Measurements>);

impl Node for Breakdowns {
    open spec fn tree(&self) -> Tree {
        Tree::Newtype { hook: None, attrs: None, inner: Box::new(self.0.tree()) }
    }
}

impl ProcessValue for Breakdowns {
    fn value_type(&self) -> (r: ValueTypeSet) {
        proof {
            reveal_with_fuel(Tree::kind, 2);
        }
        self.0.value_type()
    }

    fn process_value<P: Processor>(
        &mut self,
        meta: &mut Meta,
        processor: &mut P,
        state: &ProcessingState<'_>,
    ) -> (r: ProcessingResult) {
        let inner = state.enter_nothing(None);
        self.0.process_value(meta, processor, &inner)
    }

    fn process_child_values<P: Processor>(
        &mut self,
        processor: &mut P,
        state: &ProcessingState<'_>,
    ) -> (r: ProcessingResult) {
        Ok(())
    }
}

} // verus!
