//! A value paired with its metadata.

use crate::meta::{Meta, MetaError};
use crate::processor::action::{ProcessingAction, ProcessingResult};
use crate::text::Text;
use crate::value::Value;
use vstd::prelude::*;

verus! {

/// A value and the metadata recorded for it. The value may be absent: that is
/// a state like any other, and both parts can be read and written in it.
#[derive(Debug)]
pub struct Annotated<T>(pub Option<T>, pub Meta);

impl<T> Annotated<T> {
    /// The value is absent and the metadata records nothing.
    pub open spec fn blank(&self) -> bool {
        &&& self.0 is None
        &&& self.1.errors@.len() == 0
        &&& self.1.original_value is None
    }

    /// A present value without metadata.
    pub fn new(value: T) -> (r: Annotated<T>)
        ensures
            r.0 == Some(value),
            r.1.errors@.len() == 0,
            r.1.original_value is None,
    {
        Annotated(Some(value), Meta::new())
    }

    /// An absent value without metadata.
    pub fn empty() -> (r: Annotated<T>)
        ensures
            r.blank(),
    {
        Annotated(None, Meta::new())
    }

    /// An absent value whose metadata records `error` and keeps `original`.
    pub fn from_error(error: MetaError, original: Option<Value>) -> (r: Annotated<T>)
        ensures
            r.0 is None,
            r.1.errors@ == seq![error],
            r.1.original_value == original,
    {
        let mut meta = Meta::from_error(error);
        meta.set_original_value(original);
        Annotated(None, meta)
    }

    /// The value, if it is present.
    pub fn value(&self) -> (r: Option<&T>)
        ensures
            r == match self.0 {
                Some(v) => Some(&v),
                None => None,
            },
    {
        self.0.as_ref()
    }

    /// The value, if it is present, for change.
    pub fn value_mut(&mut self) -> (r: Option<&mut T>)
        ensures
            match r {
                Some(value) => old(self).0 == Some(*value) && final(self).0 == Some(*final(value)),
                None => old(self).0 is None && final(self).0 is None,
            },
            final(self).1 == old(self).1,
    {
        self.0.as_mut()
    }

    /// The metadata, for change.
    pub fn meta_mut(&mut self) -> (r: &mut Meta)
        ensures
            *r == old(self).1,
            final(self).1 == *final(r),
            final(self).0 == old(self).0,
    {
        &mut self.1
    }

    /// The metadata.
    pub fn meta(&self) -> (r: &Meta)
        ensures
            *r == self.1,
    {
        &self.1
    }

    /// Replaces the value and keeps the metadata.
    pub fn set_value(&mut self, value: Option<T>)
        ensures
            final(self).0 == value,
            final(self).1 == old(self).1,
    {
        self.0 = value;
    }

    /// Takes the value out and leaves the node without one.
    pub fn take_value(&mut self) -> (r: Option<T>)
        ensures
            r == old(self).0,
            final(self).0 is None,
            final(self).1 == old(self).1,
    {
        self.0.take()
    }

    /// Gives up the metadata and returns the value.
    pub fn into_value(self) -> (r: Option<T>)
        ensures
            r == self.0,
    {
        self.0
    }
}

impl<T: Text> Annotated<T> {
    /// The characters of the string, if the value is present.
    pub open spec fn text(&self) -> Option<Seq<char>> {
        match self.0 {
            Some(v) => Some(v.text()),
            None => None,
        }
    }

    /// The string, if the value is present.
    pub fn as_str(&self) -> (r: Option<&str>)
        ensures
            match r {
                Some(s) => self.text() == Some(s@),
                None => self.text() is None,
            },
    {
        match &self.0 {
            Some(v) => Some(v.as_str()),
            None => None,
        }
    }
}

impl Annotated<Value> {
    /// Folds the result of a traversal of this value back into it, as the
    /// caller of the traversal is to do. A hard delete removes the value; a
    /// soft delete removes it and keeps it as the original value in the
    /// metadata; a rejection is handed on and changes nothing.
    pub fn apply(&mut self, result: ProcessingResult) -> (r: ProcessingResult)
        ensures
            match result {
                Ok(_) => r is Ok && final(self).0 == old(self).0 && final(self).1 == old(self).1,
                Err(ProcessingAction::DeleteValueHard) => {
                    &&& r is Ok
                    &&& final(self).0 is None
                    &&& final(self).1 == old(self).1
                },
                Err(ProcessingAction::DeleteValueSoft) => {
                    &&& r is Ok
                    &&& final(self).0 is None
                    &&& final(self).1.errors == old(self).1.errors
                    &&& final(self).1.original_value == old(self).0
                },
                Err(ProcessingAction::InvalidTransaction(_)) => {
                    &&& r == result
                    &&& final(self).0 == old(self).0
                    &&& final(self).1 == old(self).1
                },
            },
    {
        match result {
            Ok(()) => Ok(()),
            Err(ProcessingAction::DeleteValueHard) => {
                self.0 = None;
                Ok(())
            },
            Err(ProcessingAction::DeleteValueSoft) => {
                let value = self.0.take();
                self.1.original_value = value;
                Ok(())
            },
            Err(ProcessingAction::InvalidTransaction(reason)) => Err(
                ProcessingAction::InvalidTransaction(reason),
            ),
        }
    }
}

} // verus!
