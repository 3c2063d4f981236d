//! The small types that the schema is made of.

use crate::meta::Meta;
use crate::processor::action::{settled, Descent, ProcessingResult};
use crate::processor::model::{Content, Hook, Tree};
use crate::processor::state::ProcessingState;
use crate::processor::traits::{Node, ProcessValue, Processor};
use crate::text::Text;
use crate::value::Array;
use crate::value_type::{ValueType, ValueTypeSet};
use vstd::prelude::*;

verus! {

/// A string that was a string or a number when it was read.
#[derive(Debug)]
pub struct LenientString(pub String);

/// A string that was any kind of value when it was read.
#[derive(Debug)]
pub struct JsonLenientString(pub String);

/// An IP address, or the text that asks for the address of the sender.
#[derive(Debug)]
pub struct IpAddr(pub String);

/// The text of a log message.
#[derive(Debug)]
pub struct Message(pub String);

/// The name of a header.
#[derive(Debug)]
pub struct HeaderName(pub String);

/// The value of a header.
#[derive(Debug)]
pub struct HeaderValue(pub String);

/// A 128-bit identifier that is written as hexadecimal digits.
#[derive(Clone, Copy, PartialEq, Eq, Structural, Debug)]
pub struct HexId(pub u128);

impl IpAddr {
    /// The text that asks for the address of the sender.
    pub fn auto() -> (r: IpAddr)
        ensures
            r.0@ == "{{auto}}"@,
    {
        IpAddr("{{auto}}".to_owned())
    }
}

impl HeaderName {
    /// The header name `name`.
    pub fn new(name: &str) -> (r: HeaderName)
        ensures
            r.0@ == name@,
    {
        HeaderName(name.to_owned())
    }
}

impl Text for LenientString {
    open spec fn text(&self) -> Seq<char> {
        self.0@
    }

    fn as_str(&self) -> (r: &str) {
        self.0.as_str()
    }
}

impl Text for JsonLenientString {
    open spec fn text(&self) -> Seq<char> {
        self.0@
    }

    fn as_str(&self) -> (r: &str) {
        self.0.as_str()
    }
}

impl Text for IpAddr {
    open spec fn text(&self) -> Seq<char> {
        self.0@
    }

    fn as_str(&self) -> (r: &str) {
        self.0.as_str()
    }
}

impl Text for Message {
    open spec fn text(&self) -> Seq<char> {
        self.0@
    }

    fn as_str(&self) -> (r: &str) {
        self.0.as_str()
    }
}

impl Text for HeaderName {
    open spec fn text(&self) -> Seq<char> {
        self.0@
    }

    fn as_str(&self) -> (r: &str) {
        self.0.as_str()
    }
}

impl Text for HeaderValue {
    open spec fn text(&self) -> Seq<char> {
        self.0@
    }

    fn as_str(&self) -> (r: &str) {
        self.0.as_str()
    }
}

/// The model of a type that wraps one value, adds nothing to the path and
/// passes the policy down unchanged.
pub open spec fn wrapper(hook: Option<Hook>, inner: Tree) -> Tree {
    Tree::Newtype { hook, attrs: None, inner: Box::new(inner) }
}

/// The model of a value without hook and without children.
pub open spec fn atom(id: int) -> Tree {
    Tree::Leaf { hook: None, kind: Set::empty(), content: Content::Atom(id) }
}

impl Node for LenientString {
    open spec fn tree(&self) -> Tree {
        wrapper(None, self.0.tree())
    }
}

impl Node for JsonLenientString {
    open spec fn tree(&self) -> Tree {
        wrapper(None, self.0.tree())
    }
}

impl Node for IpAddr {
    open spec fn tree(&self) -> Tree {
        wrapper(None, self.0.tree())
    }
}

impl Node for Message {
    open spec fn tree(&self) -> Tree {
        wrapper(None, self.0.tree())
    }
}

impl Node for HeaderValue {
    open spec fn tree(&self) -> Tree {
        wrapper(None, self.0.tree())
    }
}

impl Node for HeaderName {
    open spec fn tree(&self) -> Tree {
        wrapper(Some(Hook::HeaderName), self.0.tree())
    }
}

impl Node for HexId {
    open spec fn tree(&self) -> Tree {
        atom(self.0 as int)
    }
}

impl ProcessValue for LenientString {
    fn value_type(&self) -> (r: ValueTypeSet) {
        proof {
            reveal_with_fuel(Tree::kind, 2);
        }
        self.0.value_type()
    }

    fn process_value<P: Processor>(
        &mut self,
        meta: &mut Meta,
        processor: &mut P,
        state: &ProcessingState<'_>,
    ) -> (r: ProcessingResult) {
        let inner = state.enter_nothing(None);
        self.0.process_value(meta, processor, &inner)
    }

    fn process_child_values<P: Processor>(
        &mut self,
        processor: &mut P,
        state: &ProcessingState<'_>,
    ) -> (r: ProcessingResult) {
        Ok(())
    }
}

impl ProcessValue for JsonLenientString {
    fn value_type(&self) -> (r: ValueTypeSet) {
        proof {
            reveal_with_fuel(Tree::kind, 2);
        }
        self.0.value_type()
    }

    fn process_value<P: Processor>(
        &mut self,
        meta: &mut Meta,
        processor: &mut P,
        state: &ProcessingState<'_>,
    ) -> (r: ProcessingResult) {
        let inner = state.enter_nothing(None);
        self.0.process_value(meta, processor, &inner)
    }

    fn process_child_values<P: Processor>(
        &mut self,
        processor: &mut P,
        state: &ProcessingState<'_>,
    ) -> (r: ProcessingResult) {
        Ok(())
    }
}

impl ProcessValue for IpAddr {
    fn value_type(&self) -> (r: ValueTypeSet) {
        proof {
            reveal_with_fuel(Tree::kind, 2);
        }
        self.0.value_type()
    }

    fn process_value<P: Processor>(
        &mut self,
        meta: &mut Meta,
        processor: &mut P,
        state: &ProcessingState<'_>,
    ) -> (r: ProcessingResult) {
        let inner = state.enter_nothing(None);
        self.0.process_value(meta, processor, &inner)
    }

    fn process_child_values<P: Processor>(
        &mut self,
        processor: &mut P,
        state: &ProcessingState<'_>,
    ) -> (r: ProcessingResult) {
        Ok(())
    }
}

impl ProcessValue for Message {
    fn value_type(&self) -> (r: ValueTypeSet) {
        proof {
            reveal_with_fuel(Tree::kind, 2);
        }
        self.0.value_type()
    }

    fn process_value<P: Processor>(
        &mut self,
        meta: &mut Meta,
        processor: &mut P,
        state: &ProcessingState<'_>,
    ) -> (r: ProcessingResult) {
        let inner = state.enter_nothing(None);
        self.0.process_value(meta, processor, &inner)
    }

    fn process_child_values<P: Processor>(
        &mut self,
        processor: &mut P,
        state: &ProcessingState<'_>,
    ) -> (r: ProcessingResult) {
        Ok(())
    }
}

impl ProcessValue for HeaderValue {
    fn value_type(&self) -> (r: ValueTypeSet) {
        proof {
            reveal_with_fuel(Tree::kind, 2);
        }
        self.0.value_type()
    }

    fn process_value<P: Processor>(
        &mut self,
        meta: &mut Meta,
        processor: &mut P,
        state: &ProcessingState<'_>,
    ) -> (r: ProcessingResult) {
        let inner = state.enter_nothing(None);
        self.0.process_value(meta, processor, &inner)
    }

    fn process_child_values<P: Processor>(
        &mut self,
        processor: &mut P,
        state: &ProcessingState<'_>,
    ) -> (r: ProcessingResult) {
        Ok(())
    }
}

impl ProcessValue for HeaderName {
    fn value_type(&self) -> (r: ValueTypeSet) {
        proof {
            reveal_with_fuel(Tree::kind, 2);
        }
        self.0.value_type()
    }

    fn process_value<P: Processor>(
        &mut self,
        meta: &mut Meta,
        processor: &mut P,
        state: &ProcessingState<'_>,
    ) -> (r: ProcessingResult) {
        processor.process_header_name(&*self, meta, state)?;
        let inner = state.enter_nothing(None);
        self.0.process_value(meta, processor, &inner)
    }

    fn process_child_values<P: Processor>(
        &mut self,
        processor: &mut P,
        state: &ProcessingState<'_>,
    ) -> (r: ProcessingResult) {
        Ok(())
    }
}

impl ProcessValue for HexId {
    fn value_type(&self) -> (r: ValueTypeSet) {
        ValueTypeSet::empty()
    }

    fn process_value<P: Processor>(
        &mut self,
        meta: &mut Meta,
        processor: &mut P,
        state: &ProcessingState<'_>,
    ) -> (r: ProcessingResult) {
        Ok(())
    }

    fn process_child_values<P: Processor>(
        &mut self,
        processor: &mut P,
        state: &ProcessingState<'_>,
    ) -> (r: ProcessingResult) {
        Ok(())
    }
}

/// The severity of an event.
#[derive(Clone, Copy, PartialEq, Eq, Structural, Debug)]
pub enum Level {
    Debug,
    Info,
    Warning,
    Error,
    Fatal,
}

impl Level {
    /// The position of the variant in the declaration.
    pub open spec fn ordinal(self) -> int {
        match self {
            Level::Debug => 0,
            Level::Info => 1,
            Level::Warning => 2,
            Level::Error => 3,
            Level::Fatal => 4,
        }
    }

    /// The name of the level.
    pub open spec fn text(self) -> Seq<char> {
        match self {
            Level::Debug => "debug"@,
            Level::Info => "info"@,
            Level::Warning => "warning"@,
            Level::Error => "error"@,
            Level::Fatal => "fatal"@,
        }
    }

    /// The name of the level.
    pub fn name(&self) -> (r: &'static str)
        ensures
            r@ == self.text(),
    {
        match self {
            Level::Debug => "debug",
            Level::Info => "info",
            Level::Warning => "warning",
            Level::Error => "error",
            Level::Fatal => "fatal",
        }
    }
}

impl Node for Level {
    open spec fn tree(&self) -> Tree {
        atom(self.ordinal())
    }
}

impl ProcessValue for Level {
    fn value_type(&self) -> (r: ValueTypeSet) {
        ValueTypeSet::empty()
    }

    fn process_value<P: Processor>(
        &mut self,
        meta: &mut Meta,
        processor: &mut P,
        state: &ProcessingState<'_>,
    ) -> (r: ProcessingResult) {
        Ok(())
    }

    fn process_child_values<P: Processor>(
        &mut self,
        processor: &mut P,
        state: &ProcessingState<'_>,
    ) -> (r: ProcessingResult) {
        Ok(())
    }
}

/// The type of an event.
#[derive(Clone, Copy, PartialEq, Eq, Structural, Debug)]
pub enum EventType {
    Error,
    Csp,
    Hpkp,
    ExpectCt,
    ExpectStaple,
    Nel,
    Transaction,
    UserReportV2,
    Default,
}

impl EventType {
    /// The position of the variant in the declaration.
    pub open spec fn ordinal(self) -> int {
        match self {
            EventType::Error => 0,
            EventType::Csp => 1,
            EventType::Hpkp => 2,
            EventType::ExpectCt => 3,
            EventType::ExpectStaple => 4,
            EventType::Nel => 5,
            EventType::Transaction => 6,
            EventType::UserReportV2 => 7,
            EventType::Default => 8,
        }
    }

    /// The name of the type.
    pub open spec fn text(self) -> Seq<char> {
        match self {
            EventType::Error => "error"@,
            EventType::Csp => "csp"@,
            EventType::Hpkp => "hpkp"@,
            EventType::ExpectCt => "expectct"@,
            EventType::ExpectStaple => "expectstaple"@,
            EventType::Nel => "nel"@,
            EventType::Transaction => "transaction"@,
            EventType::UserReportV2 => "userreportv2"@,
            EventType::Default => "default"@,
        }
    }

    /// The name of the type.
    pub fn as_str(&self) -> (r: &'static str)
        ensures
            r@ == self.text(),
    {
        match self {
            EventType::Error => "error",
            EventType::Csp => "csp",
            EventType::Hpkp => "hpkp",
            EventType::ExpectCt => "expectct",
            EventType::ExpectStaple => "expectstaple",
            EventType::Nel => "nel",
            EventType::Transaction => "transaction",
            EventType::UserReportV2 => "userreportv2",
            EventType::Default => "default",
        }
    }
}

impl Node for EventType {
    open spec fn tree(&self) -> Tree {
        atom(self.ordinal())
    }
}

impl ProcessValue for EventType {
    fn value_type(&self) -> (r: ValueTypeSet) {
        ValueTypeSet::empty()
    }

    fn process_value<P: Processor>(
        &mut self,
        meta: &mut Meta,
        processor: &mut P,
        state: &ProcessingState<'_>,
    ) -> (r: ProcessingResult) {
        Ok(())
    }

    fn process_child_values<P: Processor>(
        &mut self,
        processor: &mut P,
        state: &ProcessingState<'_>,
    ) -> (r: ProcessingResult) {
        Ok(())
    }
}

/// Where the name of a transaction came from.
#[derive(Clone, Copy, PartialEq, Eq, Structural, Debug)]
pub enum TransactionSource {
    Custom,
    Url,
    Route,
    View,
    Component,
    Sanitized,
    Task,
    Unknown,
}

impl TransactionSource {
    /// The position of the variant in the declaration.
    pub open spec fn ordinal(self) -> int {
        match self {
            TransactionSource::Custom => 0,
            TransactionSource::Url => 1,
            TransactionSource::Route => 2,
            TransactionSource::View => 3,
            TransactionSource::Component => 4,
            TransactionSource::Sanitized => 5,
            TransactionSource::Task => 6,
            TransactionSource::Unknown => 7,
        }
    }

    /// The name of the source.
    pub open spec fn text(self) -> Seq<char> {
        match self {
            TransactionSource::Custom => "custom"@,
            TransactionSource::Url => "url"@,
            TransactionSource::Route => "route"@,
            TransactionSource::View => "view"@,
            TransactionSource::Component => "component"@,
            TransactionSource::Sanitized => "sanitized"@,
            TransactionSource::Task => "task"@,
            TransactionSource::Unknown => "unknown"@,
        }
    }

    /// The name of the source.
    pub fn as_str(&self) -> (r: &'static str)
        ensures
            r@ == self.text(),
    {
        match self {
            TransactionSource::Custom => "custom",
            TransactionSource::Url => "url",
            TransactionSource::Route => "route",
            TransactionSource::View => "view",
            TransactionSource::Component => "component",
            TransactionSource::Sanitized => "sanitized",
            TransactionSource::Task => "task",
            TransactionSource::Unknown => "unknown",
        }
    }
}

impl Node for TransactionSource {
    open spec fn tree(&self) -> Tree {
        atom(self.ordinal())
    }
}

impl ProcessValue for TransactionSource {
    fn value_type(&self) -> (r: ValueTypeSet) {
        ValueTypeSet::empty()
    }

    fn process_value<P: Processor>(
        &mut self,
        meta: &mut Meta,
        processor: &mut P,
        state: &ProcessingState<'_>,
    ) -> (r: ProcessingResult) {
        Ok(())
    }

    fn process_child_values<P: Processor>(
        &mut self,
        processor: &mut P,
        state: &ProcessingState<'_>,
    ) -> (r: ProcessingResult) {
        Ok(())
    }
}

/// How an operation ended.
#[derive(Clone, Copy, PartialEq, Eq, Structural, Debug)]
pub enum SpanStatus {
    Success,
    DeadlineExceeded,
    Unauthenticated,
    PermissionDenied,
    NotFound,
    ResourceExhausted,
    InvalidArgument,
    Unimplemented,
    Unavailable,
    InternalError,
    Unknown,
    Cancelled,
    AlreadyExists,
    FailedPrecondition,
    Aborted,
    OutOfRange,
    DataLoss,
}

impl SpanStatus {
    /// The position of the variant in the declaration.
    pub open spec fn ordinal(self) -> int {
        match self {
            SpanStatus::Success => 0,
            SpanStatus::DeadlineExceeded => 1,
            SpanStatus::Unauthenticated => 2,
            SpanStatus::PermissionDenied => 3,
            SpanStatus::NotFound => 4,
            SpanStatus::ResourceExhausted => 5,
            SpanStatus::InvalidArgument => 6,
            SpanStatus::Unimplemented => 7,
            SpanStatus::Unavailable => 8,
            SpanStatus::InternalError => 9,
            SpanStatus::Unknown => 10,
            SpanStatus::Cancelled => 11,
            SpanStatus::AlreadyExists => 12,
            SpanStatus::FailedPrecondition => 13,
            SpanStatus::Aborted => 14,
            SpanStatus::OutOfRange => 15,
            SpanStatus::DataLoss => 16,
        }
    }

    /// The name of the status.
    pub open spec fn text(self) -> Seq<char> {
        match self {
            SpanStatus::Success => "ok"@,
            SpanStatus::DeadlineExceeded => "deadline_exceeded"@,
            SpanStatus::Unauthenticated => "unauthenticated"@,
            SpanStatus::PermissionDenied => "permission_denied"@,
            SpanStatus::NotFound => "not_found"@,
            SpanStatus::ResourceExhausted => "resource_exhausted"@,
            SpanStatus::InvalidArgument => "invalid_argument"@,
            SpanStatus::Unimplemented => "unimplemented"@,
            SpanStatus::Unavailable => "unavailable"@,
            SpanStatus::InternalError => "internal_error"@,
            SpanStatus::Unknown => "unknown"@,
            SpanStatus::Cancelled => "cancelled"@,
            SpanStatus::AlreadyExists => "already_exists"@,
            SpanStatus::FailedPrecondition => "failed_precondition"@,
            SpanStatus::Aborted => "aborted"@,
            SpanStatus::OutOfRange => "out_of_range"@,
            SpanStatus::DataLoss => "data_loss"@,
        }
    }

    /// The name of the status.
    pub fn as_str(&self) -> (r: &'static str)
        ensures
            r@ == self.text(),
    {
        match self {
            SpanStatus::Success => "ok",
            SpanStatus::DeadlineExceeded => "deadline_exceeded",
            SpanStatus::Unauthenticated => "unauthenticated",
            SpanStatus::PermissionDenied => "permission_denied",
            SpanStatus::NotFound => "not_found",
            SpanStatus::ResourceExhausted => "resource_exhausted",
            SpanStatus::InvalidArgument => "invalid_argument",
            SpanStatus::Unimplemented => "unimplemented",
            SpanStatus::Unavailable => "unavailable",
            SpanStatus::InternalError => "internal_error",
            SpanStatus::Unknown => "unknown",
            SpanStatus::Cancelled => "cancelled",
            SpanStatus::AlreadyExists => "already_exists",
            SpanStatus::FailedPrecondition => "failed_precondition",
            SpanStatus::Aborted => "aborted",
            SpanStatus::OutOfRange => "out_of_range",
            SpanStatus::DataLoss => "data_loss",
        }
    }
}

impl Node for SpanStatus {
    open spec fn tree(&self) -> Tree {
        atom(self.ordinal())
    }
}

impl ProcessValue for SpanStatus {
    fn value_type(&self) -> (r: ValueTypeSet) {
        ValueTypeSet::empty()
    }

    fn process_value<P: Processor>(
        &mut self,
        meta: &mut Meta,
        processor: &mut P,
        state: &ProcessingState<'_>,
    ) -> (r: ProcessingResult) {
        Ok(())
    }

    fn process_child_values<P: Processor>(
        &mut self,
        processor: &mut P,
        state: &ProcessingState<'_>,
    ) -> (r: ProcessingResult) {
        Ok(())
    }
}

/// A point in time: whole seconds since the Unix epoch, and the nanoseconds
/// of the second that has begun.
#[derive(Clone, Copy, PartialEq, Eq, Structural, Debug)]
pub struct Timestamp {
    pub seconds: i64,
    pub nanos: u32,
}

/// A span of time in milliseconds: the whole milliseconds, and the
/// nanoseconds of the millisecond that has begun.
#[derive(Clone, Copy, PartialEq, Eq, Structural, Debug)]
pub struct Millis {
    pub whole: u128,
    pub nanos: u32,
}

impl Timestamp {
    /// The nanoseconds since the Unix epoch.
    pub open spec fn total_nanos(self) -> int {
        self.seconds * 1_000_000_000 + self.nanos
    }

    /// The point in time `seconds` seconds and `nanos` nanoseconds after the
    /// Unix epoch.
    pub fn new(seconds: i64, nanos: u32) -> (r: Timestamp)
        ensures
            r == (Timestamp { seconds, nanos }),
    {
        Timestamp { seconds, nanos }
    }

    fn nanos_since_epoch(self) -> (r: i128)
        ensures
            r == self.total_nanos(),
    {
        (self.seconds as i128) * 1_000_000_000i128 + (self.nanos as i128)
    }

    /// Whether this point in time is not later than `other`.
    pub fn le(self, other: Timestamp) -> (r: bool)
        ensures
            r == (self.total_nanos() <= other.total_nanos()),
    {
        self.nanos_since_epoch() <= other.nanos_since_epoch()
    }

    /// The time from `start` to this point, where `start` is not later.
    pub open spec fn spec_millis_since(self, start: Timestamp) -> Option<Millis> {
        let span = self.total_nanos() - start.total_nanos();
        if span >= 0 {
            Some(Millis { whole: (span / 1_000_000) as u128, nanos: (span % 1_000_000) as u32 })
        } else {
            None
        }
    }

    /// The time from `start` to this point, where `start` is not later.
    #[verifier::when_used_as_spec(spec_millis_since)]
    pub fn millis_since(self, start: Timestamp) -> (r: Option<Millis>)
        ensures
            r == self.spec_millis_since(start),
    {
        let from = start.nanos_since_epoch();
        let to = self.nanos_since_epoch();
        if from <= to {
            let span: i128 = to - from;
            let whole: i128 = span / 1_000_000i128;
            let rest: i128 = span % 1_000_000i128;
            Some(Millis { whole: whole as u128, nanos: rest as u32 })
        } else {
            None
        }
    }
}

/// A span of time between two points is the whole milliseconds and the
/// nanoseconds of the millisecond that has begun: together they make up the
/// nanoseconds from the one point to the other.
pub proof fn lemma_millis_since(end: Timestamp, start: Timestamp)
    ensures
        end.spec_millis_since(start) is Some <==> start.total_nanos() <= end.total_nanos(),
        end.spec_millis_since(start) matches Some(span) ==> span.nanos < 1_000_000 && span.whole
            * 1_000_000 + span.nanos == end.total_nanos() - start.total_nanos(),
{
}

impl Node for Timestamp {
    open spec fn tree(&self) -> Tree {
        Tree::Leaf {
            hook: Some(Hook::Timestamp),
            kind: Set::empty(),
            content: Content::Atom(self.total_nanos()),
        }
    }
}

impl ProcessValue for Timestamp {
    fn value_type(&self) -> (r: ValueTypeSet) {
        ValueTypeSet::empty()
    }

    fn process_value<P: Processor>(
        &mut self,
        meta: &mut Meta,
        processor: &mut P,
        state: &ProcessingState<'_>,
    ) -> (r: ProcessingResult) {
        processor.process_timestamp(self, meta, state)
    }

    fn process_child_values<P: Processor>(
        &mut self,
        processor: &mut P,
        state: &ProcessingState<'_>,
    ) -> (r: ProcessingResult) {
        Ok(())
    }
}

/// A list of pairs that is written as a map or as a list of pairs.
#[derive(Debug)]
pub struct PairList<T>(pub Array<T>);

impl<T: Node> Node for PairList<T> {
    open spec fn tree(&self) -> Tree {
        Tree::Branch {
            hook: Some(Hook::PairList),
            kind: set![ValueType::Object],
            children: crate::processor::impls::items_of(self.0@),
            bag: None,
        }
    }
}

impl<T: ProcessValue> ProcessValue for PairList<T> {
    fn value_type(&self) -> (r: ValueTypeSet) {
        ValueTypeSet::only(ValueType::Object)
    }

    fn process_value<P: Processor>(
        &mut self,
        meta: &mut Meta,
        processor: &mut P,
        state: &ProcessingState<'_>,
    ) -> (r: ProcessingResult) {
        match processor.process_pairlist(&*self, meta, state) {
            Ok(Descent::Recurse) => self.process_child_values(processor, state),
            answer => settled(answer),
        }
    }

    fn process_child_values<P: Processor>(
        &mut self,
        processor: &mut P,
        state: &ProcessingState<'_>,
    ) -> (r: ProcessingResult) {
        let ghost before = *self;
        let ghost first = *processor;
        let r = self.0.process_child_values(processor, state);
        proof {
            let as_array = crate::processor::walk::visit_children(
                first,
                crate::processor::traits::Node::tree(&before.0),
                state@,
            );
            let as_pairs = crate::processor::walk::visit_children(first, before.tree(), state@);
            assert(as_pairs.tree == self.tree());
        }
        r
    }
}

} // verus!
