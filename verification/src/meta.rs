//! The metadata side channel of an annotated value.

use crate::value::Value;
use vstd::prelude::*;

verus! {

/// What went wrong with a value.
#[derive(Clone, Copy, PartialEq, Eq, Structural, Debug)]
pub enum ErrorKind {
    /// The data does not fit the schema.
    InvalidData,
    /// A required attribute is missing.
    MissingAttribute,
    /// An attribute is not allowed here.
    InvalidAttribute,
    /// The value is too long.
    ValueTooLong,
    /// A timestamp lies too far in the past.
    PastTimestamp,
    /// A timestamp lies in the future.
    FutureTimestamp,
    /// Anything else.
    Unknown,
}

/// One recorded error: its kind and a free-form context.
#[derive(Clone, Debug)]
pub struct MetaError {
    pub kind: ErrorKind,
    pub context: String,
}

impl MetaError {
    /// An error of the given kind without context.
    pub fn new(kind: ErrorKind) -> (r: MetaError)
        ensures
            r.kind == kind,
            r.context@ == Seq::<char>::empty(),
    {
        MetaError { kind, context: String::new() }
    }

    /// The error that a value of another shape was expected.
    pub fn expected(what: &str) -> (r: MetaError)
        ensures
            r.kind == ErrorKind::InvalidData,
            r.context@ == what@,
    {
        MetaError { kind: ErrorKind::InvalidData, context: what.to_owned() }
    }
}

/// The metadata of one node: the errors recorded for it, in the order in which
/// they were recorded, and the value it held before it was removed.
#[derive(Debug)]
pub struct Meta {
    /// The recorded errors, oldest first.
    pub errors: Vec<MetaError>,
    /// The value that the node held before it was removed, if one was kept.
    pub original_value: Option<Value>,
}

impl Meta {
    /// Metadata that records nothing.
    pub fn new() -> (r: Meta)
        ensures
            r.errors@ == Seq::<MetaError>::empty(),
            r.original_value is None,
    {
        Meta { errors: Vec::new(), original_value: None }
    }

    /// Metadata that records the one error `error`.
    pub fn from_error(error: MetaError) -> (r: Meta)
        ensures
            r.errors@ == seq![error],
            r.original_value is None,
    {
        let mut errors = Vec::new();
        errors.push(error);
        Meta { errors, original_value: None }
    }

    /// Whether nothing is recorded.
    pub fn is_empty(&self) -> (r: bool)
        ensures
            r == (self.errors@.len() == 0 && self.original_value is None),
    {
        self.errors.len() == 0 && self.original_value.is_none()
    }

    /// Whether an error is recorded.
    pub fn has_errors(&self) -> (r: bool)
        ensures
            r == (self.errors@.len() > 0),
    {
        self.errors.len() > 0
    }

    /// Records `error` after the errors that are there.
    pub fn add_error(&mut self, error: MetaError)
        ensures
            final(self).errors@ == old(self).errors@.push(error),
            final(self).original_value == old(self).original_value,
    {
        self.errors.push(error);
    }

    /// The value that the node held before it was removed, if one was kept.
    pub fn original_value(&self) -> (r: Option<&Value>)
        ensures
            r == match self.original_value {
                Some(v) => Some(&v),
                None => None,
            },
    {
        self.original_value.as_ref()
    }

    /// Keeps `value` as the value that the node held before it was removed.
    pub fn set_original_value(&mut self, value: Option<Value>)
        ensures
            final(self).original_value == value,
            final(self).errors@ == old(self).errors@,
    {
        self.original_value = value;
    }
}

} // verus!
