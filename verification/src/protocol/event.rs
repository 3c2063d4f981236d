//! The event and the values that are looked up in it.

use crate::annotated::Annotated;
use crate::attrs::{FieldAttrs, Pii};
use crate::meta::Meta;
use crate::processor::action::{settled, Descent, ProcessingResult};
use crate::processor::impls::{for_field, process_value};
use crate::processor::model::{self, Bag, ChildList, Hook, Tree};
use crate::processor::state::ProcessingState;
use crate::processor::traits::{self, Node, ProcessValue, Processor};
use crate::value::{Object, Value};
use crate::value_type::{ValueType, ValueTypeSet};
use crate::protocol::context::Contexts;
use crate::protocol::event_id::EventId;
use crate::protocol::exception::Exception;
use crate::protocol::interfaces::{
    Breakdowns, ClientSdkInfo, LogEntry, Measurements, Request, TransactionInfo, Values,
};
use crate::protocol::pairs::Tags;
use crate::protocol::types::{EventType, LenientString, Level, Timestamp};
use crate::protocol::user::User;
use crate::value::Array;
use vstd::prelude::*;

verus! {

/// A value of the additional data of an event.
#[derive(Debug)]
pub struct ExtraValue(pub Value);

impl From<Value> for ExtraValue {
    fn from(value: Value) -> (r: ExtraValue) {
        ExtraValue(value)
    }
}

impl vstd::std_specs::convert::FromSpecImpl<Value> for ExtraValue {
    open spec fn obeys_from_spec() -> bool {
        true
    }

    open spec fn from_spec(value: Value) -> ExtraValue {
        ExtraValue(value)
    }
}

impl Node for ExtraValue {
    open spec fn tree(&self) -> Tree {
        Tree::Newtype {
            hook: None,
            attrs: Some(FieldAttrs::new().max_depth(7).max_bytes(16_384)),
            inner: Box::new(self.0.tree()),
        }
    }
}

impl ProcessValue for ExtraValue {
    fn value_type(&self) -> (r: ValueTypeSet) {
        proof {
            reveal_with_fuel(Tree::kind, 2);
        }
        self.0.value_type()
    }

    fn process_value<P: Processor>(
        &mut self,
        meta: &mut Meta,
        processor: &mut P,
        state: &ProcessingState<'_>,
    ) -> (r: ProcessingResult) {
        let inner = state.enter_nothing(Some(FieldAttrs::new().max_depth(7).max_bytes(16_384)));
        self.0.process_value(meta, processor, &inner)
    }

    fn process_child_values<P: Processor>(
        &mut self,
        processor: &mut P,
        state: &ProcessingState<'_>,
    ) -> (r: ProcessingResult) {
        Ok(())
    }
}

/// An error that occurred when the event was processed.
#[derive(Debug)]
pub struct EventProcessingError {
    /// The kind of the error.
    pub ty: Annotated<String>,
    /// The key or the path that is affected.
    pub name: Annotated<String>,
    /// The value that caused the error.
    pub value: Annotated<Value>,
    /// Additional fields that the schema does not declare.
    pub other: Object<Value>,
}

impl Default for EventProcessingError {
    /// The value in which every field is absent.
    fn default() -> (r: EventProcessingError)
        ensures
            r.ty.blank(),
            r.name.blank(),
            r.value.blank(),
            r.other@.len() == 0,
    {
        EventProcessingError {
            ty: Annotated::empty(),
            name: Annotated::empty(),
            value: Annotated::empty(),
            other: Object::new(),
        }
    }
}

impl EventProcessingError {
    /// The declared fields as children, in the order of their declaration.
    pub open spec fn fields(&self) -> ChildList {
        let ty = model::field(
            "type"@,
            FieldAttrs::new().required(true),
            traits::slot_of(self.ty),
        );
        let name = model::field(
            "name"@,
            FieldAttrs::new(),
            traits::slot_of(self.name),
        );
        let value = model::field(
            "value"@,
            FieldAttrs::new(),
            traits::slot_of(self.value),
        );
        model::cons(ty, model::cons(name, model::cons(value, ChildList::Nil)))
    }
}

impl Node for EventProcessingError {
    open spec fn tree(&self) -> Tree {
        Tree::Branch {
            hook: None,
            kind: Set::empty(),
            children: self.fields().seq(),
            bag: Some(
                Bag {
                    attrs: FieldAttrs::new().additional_properties().pii(Pii::Maybe),
                    entries: crate::processor::impls::entries_of(self.other@),
                },
            ),
        }
    }
}

impl ProcessValue for EventProcessingError {
    fn value_type(&self) -> (r: ValueTypeSet) {
        ValueTypeSet::empty()
    }

    fn process_value<P: Processor>(
        &mut self,
        meta: &mut Meta,
        processor: &mut P,
        state: &ProcessingState<'_>,
    ) -> (r: ProcessingResult) {
        self.process_child_values(processor, state)
    }

    fn process_child_values<P: Processor>(
        &mut self,
        processor: &mut P,
        state: &ProcessingState<'_>,
    ) -> (r: ProcessingResult) {
        let ghost mut rest = self.fields();
        proof {
            crate::processor::walk::lemma_visit_list(*processor, rest, state@);
        }
        let ghost bag = self.other;
        let child = state.enter_static(
            "type",
            Some(FieldAttrs::new().required(true)),
            for_field(&self.ty),
        );
        proof {
            crate::processor::walk::lemma_list_step(*processor, rest, state@);
            rest = rest.rest();
        }
        process_value(&mut self.ty, processor, &child)?;
        let child = state.enter_static(
            "name",
            Some(FieldAttrs::new()),
            for_field(&self.name),
        );
        proof {
            crate::processor::walk::lemma_list_step(*processor, rest, state@);
            rest = rest.rest();
        }
        process_value(&mut self.name, processor, &child)?;
        let child = state.enter_static(
            "value",
            Some(FieldAttrs::new()),
            for_field(&self.value),
        );
        proof {
            crate::processor::walk::lemma_list_step(*processor, rest, state@);
            rest = rest.rest();
        }
        process_value(&mut self.value, processor, &child)?;
        proof {
            crate::processor::walk::lemma_list_step(*processor, rest, state@);
        }
        let bag_state = state.enter_nothing(
            Some(FieldAttrs::new().additional_properties().pii(Pii::Maybe)),
        );
        match processor.process_other(&self.other, &bag_state) {
            Ok(Descent::Recurse) => {
                let ghost asked = *processor;
                let r = self.other.process_child_values(processor, &bag_state);
                proof {
                    let below = crate::processor::walk::visit_children(
                        asked,
                        crate::processor::traits::Node::tree(&bag),
                        bag_state@,
                    );
                    assert(below.tree == crate::processor::traits::Node::tree(&self.other));
                }
                r
            },
            answer => settled(answer),
        }
    }
}

/// The configuration that is used to group the event.
#[derive(Debug)]
pub struct GroupingConfig {
    /// The identifier of the configuration.
    pub id: Annotated<String>,
    /// The configuration of the enhancements.
    pub enhancements: Annotated<String>,
}

impl Default for GroupingConfig {
    /// The value in which every field is absent.
    fn default() -> (r: GroupingConfig)
        ensures
            r.id.blank(),
            r.enhancements.blank(),
    {
        GroupingConfig {
            id: Annotated::empty(),
            enhancements: Annotated::empty(),
        }
    }
}

impl GroupingConfig {
    /// The declared fields as children, in the order of their declaration.
    pub open spec fn fields(&self) -> ChildList {
        let id = model::field(
            "id"@,
            FieldAttrs::new().max_chars(128),
            traits::slot_of(self.id),
        );
        let enhancements = model::field(
            "enhancements"@,
            FieldAttrs::new(),
            traits::slot_of(self.enhancements),
        );
        model::cons(id, model::cons(enhancements, ChildList::Nil))
    }
}

impl Node for GroupingConfig {
    open spec fn tree(&self) -> Tree {
        Tree::Branch { hook: None, kind: Set::empty(), children: self.fields().seq(), bag: None }
    }
}

impl ProcessValue for GroupingConfig {
    fn value_type(&self) -> (r: ValueTypeSet) {
        ValueTypeSet::empty()
    }

    fn process_value<P: Processor>(
        &mut self,
        meta: &mut Meta,
        processor: &mut P,
        state: &ProcessingState<'_>,
    ) -> (r: ProcessingResult) {
        self.process_child_values(processor, state)
    }

    fn process_child_values<P: Processor>(
        &mut self,
        processor: &mut P,
        state: &ProcessingState<'_>,
    ) -> (r: ProcessingResult) {
        let ghost mut rest = self.fields();
        proof {
            crate::processor::walk::lemma_visit_list(*processor, rest, state@);
        }
        let child = state.enter_static(
            "id",
            Some(FieldAttrs::new().max_chars(128)),
            for_field(&self.id),
        );
        proof {
            crate::processor::walk::lemma_list_step(*processor, rest, state@);
            rest = rest.rest();
        }
        process_value(&mut self.id, processor, &child)?;
        let child = state.enter_static(
            "enhancements",
            Some(FieldAttrs::new()),
            for_field(&self.enhancements),
        );
        proof {
            crate::processor::walk::lemma_list_step(*processor, rest, state@);
            rest = rest.rest();
        }
        process_value(&mut self.enhancements, processor, &child)?;
        proof {
            crate::processor::walk::lemma_list_step(*processor, rest, state@);
        }
        Ok(())
    }
}

/// An event.
#[derive(Debug)]
pub struct Event {
    /// The identifier of the event.
    pub id: Annotated<EventId>,
    /// The severity of the event.
    pub level: Annotated<Level>,
    /// The version of the protocol.
    pub version: Annotated<String>,
    /// The type of the event.
    pub ty: Annotated<EventType>,
    /// The culprit of the event.
    pub culprit: Annotated<String>,
    /// The name of the transaction of the event.
    pub transaction: Annotated<String>,
    /// What is known of the name of the transaction.
    pub transaction_info: Annotated<TransactionInfo>,
    /// The time from the start of the transaction to the error.
    pub time_spent: Annotated<u64>,
    /// The log message of the event.
    pub logentry: Annotated<LogEntry>,
    /// The logger that created the event.
    pub logger: Annotated<String>,
    /// The installed modules and their versions.
    pub modules: Annotated<Object<String>>,
    /// The platform of the SDK.
    pub platform: Annotated<String>,
    /// When the event was created.
    pub timestamp: Annotated<Timestamp>,
    /// When the transaction of the event started.
    pub start_timestamp: Annotated<Timestamp>,
    /// When the event was received.
    pub received: Annotated<Timestamp>,
    /// The name of the server or device.
    pub server_name: Annotated<String>,
    /// The release of the application.
    pub release: Annotated<LenientString>,
    /// The distribution of the application.
    pub dist: Annotated<String>,
    /// The name of the environment.
    pub environment: Annotated<String>,
    /// The site of the event.
    pub site: Annotated<String>,
    /// The user who triggered the event.
    pub user: Annotated<User>,
    /// The request that was served when the event occurred.
    pub request: Annotated<Request>,
    /// The contexts of the event.
    pub contexts: Annotated<Contexts>,
    /// The chained exceptions of the event.
    pub exceptions: Annotated<Values<Exception>>,
    /// The tags of the event.
    pub tags: Annotated<Tags>,
    /// Additional data that the user set.
    pub extra: Annotated<Object<ExtraValue>>,
    /// The SDK that sent the event.
    pub client_sdk: Annotated<ClientSdkInfo>,
    /// The errors that occurred when the event was processed.
    pub errors: Annotated<Array<EventProcessingError>>,
    /// The key of the project that sent the event.
    pub key_id: Annotated<String>,
    /// The project that sent the event.
    pub project: Annotated<u64>,
    /// The configuration that is used to group the event.
    pub grouping_config: Annotated<Object<Value>>,
    /// The checksum that was used to group the event.
    pub checksum: Annotated<String>,
    /// The measured values of the transaction.
    pub measurements: Annotated<Measurements>,
    /// The breakdowns of the transaction.
    pub breakdowns: Annotated<Breakdowns>,
    /// The attempts to fetch a source file or a source map.
    pub scraping_attempts: Annotated<Value>,
    /// The sampling context of the event.
    pub _dsc: Annotated<Value>,
    /// Whether performance issues are detected on the spans of the event.
    pub _performance_issues_spans: Annotated<bool>,
    /// Additional fields that the schema does not declare.
    pub other: Object<Value>,
}

impl Default for Event {
    /// The value in which every field is absent.
    fn default() -> (r: Event)
        ensures
            r.id.blank(),
            r.level.blank(),
            r.version.blank(),
            r.ty.blank(),
            r.culprit.blank(),
            r.transaction.blank(),
            r.transaction_info.blank(),
            r.time_spent.blank(),
            r.logentry.blank(),
            r.logger.blank(),
            r.modules.blank(),
            r.platform.blank(),
            r.timestamp.blank(),
            r.start_timestamp.blank(),
            r.received.blank(),
            r.server_name.blank(),
            r.release.blank(),
            r.dist.blank(),
            r.environment.blank(),
            r.site.blank(),
            r.user.blank(),
            r.request.blank(),
            r.contexts.blank(),
            r.exceptions.blank(),
            r.tags.blank(),
            r.extra.blank(),
            r.client_sdk.blank(),
            r.errors.blank(),
            r.key_id.blank(),
            r.project.blank(),
            r.grouping_config.blank(),
            r.checksum.blank(),
            r.measurements.blank(),
            r.breakdowns.blank(),
            r.scraping_attempts.blank(),
            r._dsc.blank(),
            r._performance_issues_spans.blank(),
            r.other@.len() == 0,
    {
        Event {
            id: Annotated::empty(),
            level: Annotated::empty(),
            version: Annotated::empty(),
            ty: Annotated::empty(),
            culprit: Annotated::empty(),
            transaction: Annotated::empty(),
            transaction_info: Annotated::empty(),
            time_spent: Annotated::empty(),
            logentry: Annotated::empty(),
            logger: Annotated::empty(),
            modules: Annotated::empty(),
            platform: Annotated::empty(),
            timestamp: Annotated::empty(),
            start_timestamp: Annotated::empty(),
            received: Annotated::empty(),
            server_name: Annotated::empty(),
            release: Annotated::empty(),
            dist: Annotated::empty(),
            environment: Annotated::empty(),
            site: Annotated::empty(),
            user: Annotated::empty(),
            request: Annotated::empty(),
            contexts: Annotated::empty(),
            exceptions: Annotated::empty(),
            tags: Annotated::empty(),
            extra: Annotated::empty(),
            client_sdk: Annotated::empty(),
            errors: Annotated::empty(),
            key_id: Annotated::empty(),
            project: Annotated::empty(),
            grouping_config: Annotated::empty(),
            checksum: Annotated::empty(),
            measurements: Annotated::empty(),
            breakdowns: Annotated::empty(),
            scraping_attempts: Annotated::empty(),
            _dsc: Annotated::empty(),
            _performance_issues_spans: Annotated::empty(),
            other: Object::new(),
        }
    }
}

impl Event {
    /// The declared fields as children, in the order of their declaration.
    pub open spec fn fields(&self) -> ChildList {
        let id = model::field(
            "event_id"@,
            FieldAttrs::new(),
            traits::slot_of(self.id),
        );
        let level = model::field(
            "level"@,
            FieldAttrs::new(),
            traits::slot_of(self.level),
        );
        let version = model::field(
            "version"@,
            FieldAttrs::new(),
            traits::slot_of(self.version),
        );
        let ty = model::field(
            "type"@,
            FieldAttrs::new(),
            traits::slot_of(self.ty),
        );
        let culprit = model::field(
            "culprit"@,
            FieldAttrs::new().max_chars(200).pii(Pii::Maybe),
            traits::slot_of(self.culprit),
        );
        let transaction = model::field(
            "transaction"@,
            FieldAttrs::new().max_chars(200).trim_whitespace(true),
            traits::slot_of(self.transaction),
        );
        let transaction_info = model::field(
            "transaction_info"@,
            FieldAttrs::new(),
            traits::slot_of(self.transaction_info),
        );
        let time_spent = model::field(
            "time_spent"@,
            FieldAttrs::new(),
            traits::slot_of(self.time_spent),
        );
        let logentry = model::field(
            "logentry"@,
            FieldAttrs::new(),
            traits::slot_of(self.logentry),
        );
        let logger = model::field(
            "logger"@,
            FieldAttrs::new().max_chars(64),
            traits::slot_of(self.logger),
        );
        let modules = model::field(
            "modules"@,
            FieldAttrs::new().max_depth(7).max_bytes(8192),
            traits::slot_of(self.modules),
        );
        let platform = model::field(
            "platform"@,
            FieldAttrs::new(),
            traits::slot_of(self.platform),
        );
        let timestamp = model::field(
            "timestamp"@,
            FieldAttrs::new(),
            traits::slot_of(self.timestamp),
        );
        let start_timestamp = model::field(
            "start_timestamp"@,
            FieldAttrs::new(),
            traits::slot_of(self.start_timestamp),
        );
        let received = model::field(
            "received"@,
            FieldAttrs::new(),
            traits::slot_of(self.received),
        );
        let server_name = model::field(
            "server_name"@,
            FieldAttrs::new().pii(Pii::True).max_chars(256).max_chars_allowance(20),
            traits::slot_of(self.server_name),
        );
        let release = model::field(
            "release"@,
            FieldAttrs::new().max_chars(200).required(false).trim_whitespace(true).nonempty(true),
            traits::slot_of(self.release),
        );
        let dist = model::field(
            "dist"@,
            FieldAttrs::new().trim_whitespace(true).required(false).nonempty(true),
            traits::slot_of(self.dist),
        );
        let environment = model::field(
            "environment"@,
            FieldAttrs::new().max_chars(64).nonempty(true).required(false).trim_whitespace(true),
            traits::slot_of(self.environment),
        );
        let site = model::field(
            "site"@,
            FieldAttrs::new().max_chars(256).max_chars_allowance(20),
            traits::slot_of(self.site),
        );
        let user = model::field(
            "user"@,
            FieldAttrs::new(),
            traits::slot_of(self.user),
        );
        let request = model::field(
            "request"@,
            FieldAttrs::new(),
            traits::slot_of(self.request),
        );
        let contexts = model::field(
            "contexts"@,
            FieldAttrs::new(),
            traits::slot_of(self.contexts),
        );
        let exceptions = model::field(
            "exception"@,
            FieldAttrs::new(),
            traits::slot_of(self.exceptions),
        );
        let tags = model::field(
            "tags"@,
            FieldAttrs::new().pii(Pii::Maybe),
            traits::slot_of(self.tags),
        );
        let extra = model::field(
            "extra"@,
            FieldAttrs::new().max_depth(7).max_bytes(262_144).pii(Pii::True),
            traits::slot_of(self.extra),
        );
        let client_sdk = model::field(
            "sdk"@,
            FieldAttrs::new(),
            traits::slot_of(self.client_sdk),
        );
        let errors = model::field(
            "errors"@,
            FieldAttrs::new(),
            traits::slot_of(self.errors),
        );
        let key_id = model::field(
            "key_id"@,
            FieldAttrs::new(),
            traits::slot_of(self.key_id),
        );
        let project = model::field(
            "project"@,
            FieldAttrs::new(),
            traits::slot_of(self.project),
        );
        let grouping_config = model::field(
            "grouping_config"@,
            FieldAttrs::new(),
            traits::slot_of(self.grouping_config),
        );
        let checksum = model::field(
            "checksum"@,
            FieldAttrs::new().max_chars(128),
            traits::slot_of(self.checksum),
        );
        let measurements = model::field(
            "measurements"@,
            FieldAttrs::new(),
            traits::slot_of(self.measurements),
        );
        let breakdowns = model::field(
            "breakdowns"@,
            FieldAttrs::new(),
            traits::slot_of(self.breakdowns),
        );
        let scraping_attempts = model::field(
            "scraping_attempts"@,
            FieldAttrs::new(),
            traits::slot_of(self.scraping_attempts),
        );
        let dsc = model::field(
            "_dsc"@,
            FieldAttrs::new(),
            traits::slot_of(self._dsc),
        );
        let performance_issues_spans = model::field(
            "_performance_issues_spans"@,
            FieldAttrs::new().trim(false),
            traits::slot_of(self._performance_issues_spans),
        );
        model::cons(id, model::cons(level, model::cons(version, model::cons(ty,
            model::cons(culprit, model::cons(transaction, model::cons(transaction_info,
            model::cons(time_spent, model::cons(logentry, model::cons(logger,
            model::cons(modules, model::cons(platform, model::cons(timestamp,
            model::cons(start_timestamp, model::cons(received, model::cons(server_name,
            model::cons(release, model::cons(dist, model::cons(environment, model::cons(site,
            model::cons(user, model::cons(request, model::cons(contexts,
            model::cons(exceptions, model::cons(tags, model::cons(extra,
            model::cons(client_sdk, model::cons(errors, model::cons(key_id,
            model::cons(project, model::cons(grouping_config, model::cons(checksum,
            model::cons(measurements, model::cons(breakdowns, model::cons(scraping_attempts,
            model::cons(dsc, model::cons(performance_issues_spans,
            ChildList::Nil)))))))))))))))))))))))))))))))))))))
    }
}

impl Node for Event {
    open spec fn tree(&self) -> Tree {
        Tree::Branch {
            hook: Some(Hook::Event),
            kind: set![ValueType::Event],
            children: self.fields().seq(),
            bag: Some(
                Bag {
                    attrs: FieldAttrs::new().additional_properties().pii(Pii::True),
                    entries: crate::processor::impls::entries_of(self.other@),
                },
            ),
        }
    }
}

impl ProcessValue for Event {
    fn value_type(&self) -> (r: ValueTypeSet) {
        ValueTypeSet::only(ValueType::Event)
    }

    fn process_value<P: Processor>(
        &mut self,
        meta: &mut Meta,
        processor: &mut P,
        state: &ProcessingState<'_>,
    ) -> (r: ProcessingResult) {
        match processor.process_event(&*self, meta, state) {
            Ok(Descent::Recurse) => self.process_child_values(processor, state),
            answer => settled(answer),
        }
    }

    fn process_child_values<P: Processor>(
        &mut self,
        processor: &mut P,
        state: &ProcessingState<'_>,
    ) -> (r: ProcessingResult) {
        let ghost mut rest = self.fields();
        proof {
            crate::processor::walk::lemma_visit_list(*processor, rest, state@);
        }
        let ghost bag = self.other;
        let child = state.enter_static(
            "event_id",
            Some(FieldAttrs::new()),
            for_field(&self.id),
        );
        proof {
            crate::processor::walk::lemma_list_step(*processor, rest, state@);
            rest = rest.rest();
        }
        process_value(&mut self.id, processor, &child)?;
        let child = state.enter_static(
            "level",
            Some(FieldAttrs::new()),
            for_field(&self.level),
        );
        proof {
            crate::processor::walk::lemma_list_step(*processor, rest, state@);
            rest = rest.rest();
        }
        process_value(&mut self.level, processor, &child)?;
        let child = state.enter_static(
            "version",
            Some(FieldAttrs::new()),
            for_field(&self.version),
        );
        proof {
            crate::processor::walk::lemma_list_step(*processor, rest, state@);
            rest = rest.rest();
        }
        process_value(&mut self.version, processor, &child)?;
        let child = state.enter_static(
            "type",
            Some(FieldAttrs::new()),
            for_field(&self.ty),
        );
        proof {
            crate::processor::walk::lemma_list_step(*processor, rest, state@);
            rest = rest.rest();
        }
        process_value(&mut self.ty, processor, &child)?;
        let child = state.enter_static(
            "culprit",
            Some(FieldAttrs::new().max_chars(200).pii(Pii::Maybe)),
            for_field(&self.culprit),
        );
        proof {
            crate::processor::walk::lemma_list_step(*processor, rest, state@);
            rest = rest.rest();
        }
        process_value(&mut self.culprit, processor, &child)?;
        let child = state.enter_static(
            "transaction",
            Some(FieldAttrs::new().max_chars(200).trim_whitespace(true)),
            for_field(&self.transaction),
        );
        proof {
            crate::processor::walk::lemma_list_step(*processor, rest, state@);
            rest = rest.rest();
        }
        process_value(&mut self.transaction, processor, &child)?;
        let child = state.enter_static(
            "transaction_info",
            Some(FieldAttrs::new()),
            for_field(&self.transaction_info),
        );
        proof {
            crate::processor::walk::lemma_list_step(*processor, rest, state@);
            rest = rest.rest();
        }
        process_value(&mut self.transaction_info, processor, &child)?;
        let child = state.enter_static(
            "time_spent",
            Some(FieldAttrs::new()),
            for_field(&self.time_spent),
        );
        proof {
            crate::processor::walk::lemma_list_step(*processor, rest, state@);
            rest = rest.rest();
        }
        process_value(&mut self.time_spent, processor, &child)?;
        let child = state.enter_static(
            "logentry",
            Some(FieldAttrs::new()),
            for_field(&self.logentry),
        );
        proof {
            crate::processor::walk::lemma_list_step(*processor, rest, state@);
            rest = rest.rest();
        }
        process_value(&mut self.logentry, processor, &child)?;
        let child = state.enter_static(
            "logger",
            Some(FieldAttrs::new().max_chars(64)),
            for_field(&self.logger),
        );
        proof {
            crate::processor::walk::lemma_list_step(*processor, rest, state@);
            rest = rest.rest();
        }
        process_value(&mut self.logger, processor, &child)?;
        let child = state.enter_static(
            "modules",
            Some(FieldAttrs::new().max_depth(7).max_bytes(8192)),
            for_field(&self.modules),
        );
        proof {
            crate::processor::walk::lemma_list_step(*processor, rest, state@);
            rest = rest.rest();
        }
        process_value(&mut self.modules, processor, &child)?;
        let child = state.enter_static(
            "platform",
            Some(FieldAttrs::new()),
            for_field(&self.platform),
        );
        proof {
            crate::processor::walk::lemma_list_step(*processor, rest, state@);
            rest = rest.rest();
        }
        process_value(&mut self.platform, processor, &child)?;
        let child = state.enter_static(
            "timestamp",
            Some(FieldAttrs::new()),
            for_field(&self.timestamp),
        );
        proof {
            crate::processor::walk::lemma_list_step(*processor, rest, state@);
            rest = rest.rest();
        }
        process_value(&mut self.timestamp, processor, &child)?;
        let child = state.enter_static(
            "start_timestamp",
            Some(FieldAttrs::new()),
            for_field(&self.start_timestamp),
        );
        proof {
            crate::processor::walk::lemma_list_step(*processor, rest, state@);
            rest = rest.rest();
        }
        process_value(&mut self.start_timestamp, processor, &child)?;
        let child = state.enter_static(
            "received",
            Some(FieldAttrs::new()),
            for_field(&self.received),
        );
        proof {
            crate::processor::walk::lemma_list_step(*processor, rest, state@);
            rest = rest.rest();
        }
        process_value(&mut self.received, processor, &child)?;
        let child = state.enter_static(
            "server_name",
            Some(FieldAttrs::new().pii(Pii::True).max_chars(256).max_chars_allowance(20)),
            for_field(&self.server_name),
        );
        proof {
            crate::processor::walk::lemma_list_step(*processor, rest, state@);
            rest = rest.rest();
        }
        process_value(&mut self.server_name, processor, &child)?;
        let child = state.enter_static(
            "release",
            Some(
                FieldAttrs::new().max_chars(200).required(false).trim_whitespace(true).nonempty(
                    true,
                ),
            ),
            for_field(&self.release),
        );
        proof {
            crate::processor::walk::lemma_list_step(*processor, rest, state@);
            rest = rest.rest();
        }
        process_value(&mut self.release, processor, &child)?;
        let child = state.enter_static(
            "dist",
            Some(FieldAttrs::new().trim_whitespace(true).required(false).nonempty(true)),
            for_field(&self.dist),
        );
        proof {
            crate::processor::walk::lemma_list_step(*processor, rest, state@);
            rest = rest.rest();
        }
        process_value(&mut self.dist, processor, &child)?;
        let child = state.enter_static(
            "environment",
            Some(
                FieldAttrs::new().max_chars(64).nonempty(true).required(false).trim_whitespace(
                    true,
                ),
            ),
            for_field(&self.environment),
        );
        proof {
            crate::processor::walk::lemma_list_step(*processor, rest, state@);
            rest = rest.rest();
        }
        process_value(&mut self.environment, processor, &child)?;
        let child = state.enter_static(
            "site",
            Some(FieldAttrs::new().max_chars(256).max_chars_allowance(20)),
            for_field(&self.site),
        );
        proof {
            crate::processor::walk::lemma_list_step(*processor, rest, state@);
            rest = rest.rest();
        }
        process_value(&mut self.site, processor, &child)?;
        let child = state.enter_static(
            "user",
            Some(FieldAttrs::new()),
            for_field(&self.user),
        );
        proof {
            crate::processor::walk::lemma_list_step(*processor, rest, state@);
            rest = rest.rest();
        }
        process_value(&mut self.user, processor, &child)?;
        let child = state.enter_static(
            "request",
            Some(FieldAttrs::new()),
            for_field(&self.request),
        );
        proof {
            crate::processor::walk::lemma_list_step(*processor, rest, state@);
            rest = rest.rest();
        }
        process_value(&mut self.request, processor, &child)?;
        let child = state.enter_static(
            "contexts",
            Some(FieldAttrs::new()),
            for_field(&self.contexts),
        );
        proof {
            crate::processor::walk::lemma_list_step(*processor, rest, state@);
            rest = rest.rest();
        }
        process_value(&mut self.contexts, processor, &child)?;
        let child = state.enter_static(
            "exception",
            Some(FieldAttrs::new()),
            for_field(&self.exceptions),
        );
        proof {
            crate::processor::walk::lemma_list_step(*processor, rest, state@);
            rest = rest.rest();
        }
        process_value(&mut self.exceptions, processor, &child)?;
        let child = state.enter_static(
            "tags",
            Some(FieldAttrs::new().pii(Pii::Maybe)),
            for_field(&self.tags),
        );
        proof {
            crate::processor::walk::lemma_list_step(*processor, rest, state@);
            rest = rest.rest();
        }
        process_value(&mut self.tags, processor, &child)?;
        let child = state.enter_static(
            "extra",
            Some(FieldAttrs::new().max_depth(7).max_bytes(262_144).pii(Pii::True)),
            for_field(&self.extra),
        );
        proof {
            crate::processor::walk::lemma_list_step(*processor, rest, state@);
            rest = rest.rest();
        }
        process_value(&mut self.extra, processor, &child)?;
        let child = state.enter_static(
            "sdk",
            Some(FieldAttrs::new()),
            for_field(&self.client_sdk),
        );
        proof {
            crate::processor::walk::lemma_list_step(*processor, rest, state@);
            rest = rest.rest();
        }
        process_value(&mut self.client_sdk, processor, &child)?;
        let child = state.enter_static(
            "errors",
            Some(FieldAttrs::new()),
            for_field(&self.errors),
        );
        proof {
            crate::processor::walk::lemma_list_step(*processor, rest, state@);
            rest = rest.rest();
        }
        process_value(&mut self.errors, processor, &child)?;
        let child = state.enter_static(
            "key_id",
            Some(FieldAttrs::new()),
            for_field(&self.key_id),
        );
        proof {
            crate::processor::walk::lemma_list_step(*processor, rest, state@);
            rest = rest.rest();
        }
        process_value(&mut self.key_id, processor, &child)?;
        let child = state.enter_static(
            "project",
            Some(FieldAttrs::new()),
            for_field(&self.project),
        );
        proof {
            crate::processor::walk::lemma_list_step(*processor, rest, state@);
            rest = rest.rest();
        }
        process_value(&mut self.project, processor, &child)?;
        let child = state.enter_static(
            "grouping_config",
            Some(FieldAttrs::new()),
            for_field(&self.grouping_config),
        );
        proof {
            crate::processor::walk::lemma_list_step(*processor, rest, state@);
            rest = rest.rest();
        }
        process_value(&mut self.grouping_config, processor, &child)?;
        let child = state.enter_static(
            "checksum",
            Some(FieldAttrs::new().max_chars(128)),
            for_field(&self.checksum),
        );
        proof {
            crate::processor::walk::lemma_list_step(*processor, rest, state@);
            rest = rest.rest();
        }
        process_value(&mut self.checksum, processor, &child)?;
        let child = state.enter_static(
            "measurements",
            Some(FieldAttrs::new()),
            for_field(&self.measurements),
        );
        proof {
            crate::processor::walk::lemma_list_step(*processor, rest, state@);
            rest = rest.rest();
        }
        process_value(&mut self.measurements, processor, &child)?;
        let child = state.enter_static(
            "breakdowns",
            Some(FieldAttrs::new()),
            for_field(&self.breakdowns),
        );
        proof {
            crate::processor::walk::lemma_list_step(*processor, rest, state@);
            rest = rest.rest();
        }
        process_value(&mut self.breakdowns, processor, &child)?;
        let child = state.enter_static(
            "scraping_attempts",
            Some(FieldAttrs::new()),
            for_field(&self.scraping_attempts),
        );
        proof {
            crate::processor::walk::lemma_list_step(*processor, rest, state@);
            rest = rest.rest();
        }
        process_value(&mut self.scraping_attempts, processor, &child)?;
        let child = state.enter_static(
            "_dsc",
            Some(FieldAttrs::new()),
            for_field(&self._dsc),
        );
        proof {
            crate::processor::walk::lemma_list_step(*processor, rest, state@);
            rest = rest.rest();
        }
        process_value(&mut self._dsc, processor, &child)?;
        let child = state.enter_static(
            "_performance_issues_spans",
            Some(FieldAttrs::new().trim(false)),
            for_field(&self._performance_issues_spans),
        );
        proof {
            crate::processor::walk::lemma_list_step(*processor, rest, state@);
            rest = rest.rest();
        }
        process_value(&mut self._performance_issues_spans, processor, &child)?;
        proof {
            crate::processor::walk::lemma_list_step(*processor, rest, state@);
        }
        let bag_state = state.enter_nothing(
            Some(FieldAttrs::new().additional_properties().pii(Pii::True)),
        );
        match processor.process_other(&self.other, &bag_state) {
            Ok(Descent::Recurse) => {
                let ghost asked = *processor;
                let r = self.other.process_child_values(processor, &bag_state);
                proof {
                    let below = crate::processor::walk::visit_children(
                        asked,
                        crate::processor::traits::Node::tree(&bag),
                        bag_state@,
                    );
                    assert(below.tree == crate::processor::traits::Node::tree(&self.other));
                }
                r
            },
            answer => settled(answer),
        }
    }
}

} // verus!
