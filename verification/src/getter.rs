//! Scalar values as a lookup by path returns them.

use crate::number::FiniteF64;
use crate::protocol::types::{HexId, Millis};
use crate::text::str_eq;
use crate::value::Value;
use vstd::prelude::*;

verus! {

/// A scalar that was found under a path. Strings are borrowed from the data
/// that was searched.
#[derive(Clone, Copy, Debug)]
pub enum Val<'a> {
    Bool(bool),
    I64(i64),
    U64(u64),
    F64(FiniteF64),
    String(&'a str),
    HexId(HexId),
    /// A span of time in milliseconds.
    Millis(Millis),
}

/// What a scalar is.
pub enum ValView {
    Bool(bool),
    I64(i64),
    U64(u64),
    /// A finite floating-point number, by its encoding.
    F64(u64),
    String(Seq<char>),
    HexId(u128),
    Millis(Millis),
}

impl ValView {
    /// Two scalars are the same where they are of one kind and hold the same,
    /// where both are integers of the same value, and where both are the
    /// number zero, of whichever sign.
    pub open spec fn same(self, other: ValView) -> bool {
        match (self, other) {
            (ValView::I64(a), ValView::U64(b)) => a == b,
            (ValView::U64(a), ValView::I64(b)) => a == b,
            (ValView::F64(a), ValView::F64(b)) => a == b || (crate::number::bits_zero(a)
                && crate::number::bits_zero(b)),
            _ => self == other,
        }
    }
}

impl<'a> Val<'a> {
    pub open spec fn view(&self) -> ValView {
        match self {
            Val::Bool(v) => ValView::Bool(*v),
            Val::I64(v) => ValView::I64(*v),
            Val::U64(v) => ValView::U64(*v),
            Val::F64(v) => ValView::F64(v@),
            Val::String(v) => ValView::String(v@),
            Val::HexId(v) => ValView::HexId(v.0),
            Val::Millis(v) => ValView::Millis(*v),
        }
    }

    /// The scalar that an untyped value holds. A sequence and a map are no
    /// scalars.
    pub open spec fn of_value(value: Value) -> Option<ValView> {
        match value {
            Value::Bool(v) => Some(ValView::Bool(v)),
            Value::I64(v) => Some(ValView::I64(v)),
            Value::U64(v) => Some(ValView::U64(v)),
            Value::F64(v) => Some(ValView::F64(v@)),
            Value::String(v) => Some(ValView::String(v@)),
            Value::Array(_) => None,
            Value::Object(_) => None,
        }
    }

    /// The scalar that an untyped value holds. A sequence and a map are no
    /// scalars.
    pub fn from_value(value: &'a Value) -> (r: Option<Val<'a>>)
        ensures
            found(r) == Val::of_value(*value),
    {
        match value {
            Value::Bool(v) => Some(Val::Bool(*v)),
            Value::I64(v) => Some(Val::I64(*v)),
            Value::U64(v) => Some(Val::U64(*v)),
            Value::F64(v) => Some(Val::F64(*v)),
            Value::String(v) => Some(Val::String(v.as_str())),
            Value::Array(_) => None,
            Value::Object(_) => None,
        }
    }
}

/// What a lookup found.
pub open spec fn found(r: Option<Val<'_>>) -> Option<ValView> {
    match r {
        Some(v) => Some(v@),
        None => None,
    }
}

impl<'a> PartialEq for Val<'a> {
    fn eq(&self, other: &Val<'a>) -> (r: bool) {
        match (*self, *other) {
            (Val::Bool(a), Val::Bool(b)) => a == b,
            (Val::I64(a), Val::I64(b)) => a == b,
            (Val::U64(a), Val::U64(b)) => a == b,
            (Val::I64(a), Val::U64(b)) => a >= 0 && (a as u64) == b,
            (Val::U64(a), Val::I64(b)) => b >= 0 && (b as u64) == a,
            (Val::F64(a), Val::F64(b)) => a == b,
            (Val::String(a), Val::String(b)) => str_eq(a, b),
            (Val::HexId(a), Val::HexId(b)) => a.0 == b.0,
            (Val::Millis(a), Val::Millis(b)) => a.whole == b.whole && a.nanos == b.nanos,
            _ => false,
        }
    }
}

impl<'a> vstd::std_specs::cmp::PartialEqSpecImpl for Val<'a> {
    open spec fn obeys_eq_spec() -> bool {
        true
    }

    open spec fn eq_spec(&self, other: &Val<'a>) -> bool {
        self@.same(other@)
    }
}

/// A value in which scalars can be looked up by path.
pub trait Getter {
    /// What a path can lead to where it leads to a list.
    type Item;

    /// The scalar under `path`, if there is one.
    spec fn value_at(&self, path: Seq<char>) -> Option<ValView>;

    /// The list under `path`, if there is one: its items that are present,
    /// in the order of the list.
    spec fn items_at(&self, path: Seq<char>) -> Option<Seq<Self::Item>>;

    /// The scalar under `path`. A path that leads nowhere, or to something
    /// that is no scalar, finds nothing: no path is an error.
    fn get_value(&self, path: &str) -> (r: Option<Val<'_>>)
        ensures
            found(r) == self.value_at(path@),
    ;

    /// The items of the list under `path` that are present, in the order of
    /// the list. A path that leads to no list finds nothing.
    fn get_iter(&self, path: &str) -> (r: Option<Vec<&Self::Item>>)
        ensures
            match r {
                Some(items) => self.items_at(path@) matches Some(held) && items@.len()
                    == held.len() && forall|i: int|
                    0 <= i < items@.len() ==> *items@[i] == held[i],
                None => self.items_at(path@) is None,
            },
    ;
}

} // verus!
