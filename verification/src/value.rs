//! Untyped values, and the collections that annotated data is made of.

use crate::annotated::Annotated;
use crate::meta::{Meta, MetaError};
use crate::number::FiniteF64;
use crate::processor::model::{Child, Content, ErrorView, Hook, MetaView, Segment, Slot, Tree};
use crate::text::str_eq;
use crate::value_type::ValueType;
use vstd::prelude::*;

verus! {

/// A sequence of annotated values.
pub type Array<T> = Vec<Annotated<T>>;

/// A map from string keys to annotated values that keeps its entries in the
/// order in which their keys were first inserted. No key occurs twice.
#[derive(Debug)]
pub struct Object<T> {
    pub entries: Vec<(String, Annotated<T>)>,
}

/// An untyped value: a scalar, a sequence or a map.
#[derive(Debug)]
pub enum Value {
    Bool(bool),
    I64(i64),
    U64(u64),
    F64(FiniteF64),
    String(String),
    Array(Array<Value>),
    Object(Object<Value>),
}

/// The position of the first entry of `entries` with the key `key`, if any.
pub open spec fn position_of<T>(entries: Seq<(String, Annotated<T>)>, key: Seq<char>) -> Option<int>
    decreases entries.len(),
{
    if entries.len() == 0 {
        None
    } else {
        match position_of(entries.drop_last(), key) {
            Some(i) => Some(i),
            None => if entries.last().0@ == key {
                Some(entries.len() - 1)
            } else {
                None
            },
        }
    }
}

/// `position_of` finds the first entry with the key, and finds one wherever
/// the key occurs.
pub proof fn lemma_position_of<T>(entries: Seq<(String, Annotated<T>)>, key: Seq<char>)
    ensures
        match position_of(entries, key) {
            Some(i) => 0 <= i < entries.len() && entries[i].0@ == key && forall|j: int|
                0 <= j < i ==> entries[j].0@ != key,
            None => forall|j: int| 0 <= j < entries.len() ==> entries[j].0@ != key,
        },
    decreases entries.len(),
{
    if entries.len() > 0 {
        let pre = entries.drop_last();
        lemma_position_of(pre, key);
        match position_of(pre, key) {
            Some(i) => {
                assert(pre[i] == entries[i]);
                assert forall|j: int| 0 <= j < i implies entries[j].0@ != key by {
                    assert(pre[j] == entries[j]);
                }
            },
            None => {
                assert forall|j: int| 0 <= j < entries.len() - 1 implies entries[j].0@ != key by {
                    assert(pre[j] == entries[j]);
                }
            },
        }
    }
}

/// A change of the value of an entry moves no key.
pub proof fn lemma_position_kept<T>(
    entries: Seq<(String, Annotated<T>)>,
    at: int,
    value: Annotated<T>,
    key: Seq<char>,
)
    requires
        0 <= at < entries.len(),
    ensures
        position_of(entries.update(at, (entries[at].0, value)), key) == position_of(entries, key),
{
    let changed = entries.update(at, (entries[at].0, value));
    lemma_position_of(entries, key);
    lemma_position_of(changed, key);
    assert forall|j: int| 0 <= j < entries.len() implies changed[j].0@ == entries[j].0@ by {}
}

impl<T> Object<T> {
    /// The entries in insertion order.
    pub open spec fn view(&self) -> Seq<(String, Annotated<T>)> {
        self.entries@
    }

    /// No key occurs twice. It holds of every object that this module hands
    /// out.
    pub open spec fn wf(&self) -> bool {
        forall|i: int, j: int|
            0 <= i < j < self@.len() ==> (#[trigger] self@[i]).0@ != (#[trigger] self@[j]).0@
    }

    /// The value stored under `key`, if the key occurs.
    pub open spec fn lookup(&self, key: Seq<char>) -> Option<Annotated<T>> {
        match position_of(self@, key) {
            Some(i) => Some(self@[i].1),
            None => None,
        }
    }

    /// An object without entries.
    pub fn new() -> (r: Object<T>)
        ensures
            r@ == Seq::<(String, Annotated<T>)>::empty(),
            r.wf(),
    {
        Object { entries: Vec::new() }
    }

    /// The number of entries.
    pub fn len(&self) -> (r: usize)
        ensures
            r == self@.len(),
    {
        self.entries.len()
    }

    /// Whether the object has no entries.
    pub fn is_empty(&self) -> (r: bool)
        ensures
            r == (self@.len() == 0),
    {
        self.entries.len() == 0
    }

    /// The position of the entry with the key `key`, if the key occurs.
    pub fn position(&self, key: &str) -> (r: Option<usize>)
        ensures
            match r {
                Some(i) => position_of(self@, key@) == Some(i as int),
                None => position_of(self@, key@) is None,
            },
    {
        let n = self.entries.len();
        let mut i: usize = 0;
        while i < n
            invariant
                n == self.entries@.len(),
                i <= n,
                forall|j: int| 0 <= j < i ==> self.entries@[j].0@ != key@,
            decreases n - i,
        {
            if str_eq(self.entries[i].0.as_str(), key) {
                proof {
                    lemma_position_of(self@, key@);
                }
                return Some(i);
            }
            i += 1;
        }
        proof {
            lemma_position_of(self@, key@);
        }
        None
    }

    /// The value stored under `key`, if the key occurs.
    pub fn get(&self, key: &str) -> (r: Option<&Annotated<T>>)
        ensures
            r == match self.lookup(key@) {
                Some(v) => Some(&v),
                None => None,
            },
    {
        match self.position(key) {
            Some(i) => {
                proof {
                    lemma_position_of(self@, key@);
                }
                Some(&self.entries[i].1)
            },
            None => None,
        }
    }

    /// The value stored under `key`, if the key occurs, for change. The keys
    /// and the other values stay.
    pub fn get_mut(&mut self, key: &str) -> (r: Option<&mut Annotated<T>>)
        ensures
            match r {
                Some(value) => {
                    &&& position_of(old(self)@, key@) matches Some(i)
                    &&& *value == old(self)@[i].1
                    &&& final(self)@ == old(self)@.update(i, (old(self)@[i].0, *final(value)))
                },
                None => position_of(old(self)@, key@) is None && *final(self) == *old(self),
            },
    {
        proof {
            lemma_position_of(self@, key@);
        }
        match self.position(key) {
            Some(i) => Some(&mut self.entries[i].1),
            None => None,
        }
    }

    /// Whether `key` occurs.
    pub fn contains_key(&self, key: &str) -> (r: bool)
        ensures
            r == self.lookup(key@).is_some(),
    {
        self.position(key).is_some()
    }

    /// The key of the entry at position `index`.
    pub fn key_at(&self, index: usize) -> (r: &str)
        requires
            index < self@.len(),
        ensures
            r@ == self@[index as int].0@,
    {
        self.entries[index].0.as_str()
    }

    /// The value of the entry at position `index`.
    pub fn value_at(&self, index: usize) -> (r: &Annotated<T>)
        requires
            index < self@.len(),
        ensures
            *r == self@[index as int].1,
    {
        &self.entries[index].1
    }

    /// Stores `value` under `key`. Where the key occurs already, its value is
    /// replaced in place and the old one returned; otherwise the entry is
    /// added after the others.
    pub fn insert(&mut self, key: String, value: Annotated<T>) -> (r: Option<Annotated<T>>)
        requires
            old(self).wf(),
        ensures
            final(self).wf(),
            match position_of(old(self)@, key@) {
                Some(i) => r == Some(old(self)@[i].1) && final(self)@.len() == old(self)@.len()
                    && final(self)@[i].0@ == key@ && final(self)@[i].1 == value && forall|j: int|
                    0 <= j < old(self)@.len() && j != i ==> final(self)@[j] == old(self)@[j],
                None => r is None && final(self)@.len() == old(self)@.len() + 1
                    && final(self)@.last().0@ == key@ && final(self)@.last().1 == value
                    && forall|j: int|
                    0 <= j < old(self)@.len() ==> final(self)@[j] == old(self)@[j],
            },
    {
        proof {
            lemma_position_of(self@, key@);
        }
        match self.position(key.as_str()) {
            Some(i) => {
                let mut slot = (key, value);
                std::mem::swap(&mut self.entries[i], &mut slot);
                Some(slot.1)
            },
            None => {
                self.entries.push((key, value));
                None
            },
        }
    }
}

/// The model of a recorded error.
pub open spec fn error_view(error: MetaError) -> ErrorView {
    ErrorView { kind: error.kind, context: error.context@ }
}

/// The model of metadata.
pub open spec fn meta_view(meta: Meta) -> MetaView
    decreases meta,
{
    MetaView {
        errors: Seq::new(meta.errors@.len(), |i: int| error_view(meta.errors@[i])),
        original: match meta.original_value {
            Some(value) => Some(value_tree(value)),
            None => None,
        },
    }
}

/// The model of an annotated untyped value.
pub open spec fn value_slot(annotated: Annotated<Value>) -> Slot
    decreases annotated,
{
    Slot {
        value: match annotated.0 {
            Some(value) => Some(value_tree(value)),
            None => None,
        },
        meta: meta_view(annotated.1),
    }
}

/// The model of what an untyped value holds: a scalar is a leaf, a sequence
/// and a map are branches.
pub open spec fn value_inner(value: Value) -> Tree
    decreases value, 0int,
{
    match value {
        Value::Bool(b) => Tree::Leaf {
            hook: Some(Hook::Bool),
            kind: set![ValueType::Boolean],
            content: Content::Bool(b),
        },
        Value::I64(n) => Tree::Leaf {
            hook: Some(Hook::I64),
            kind: set![ValueType::Number],
            content: Content::I64(n),
        },
        Value::U64(n) => Tree::Leaf {
            hook: Some(Hook::U64),
            kind: set![ValueType::Number],
            content: Content::U64(n),
        },
        Value::F64(n) => Tree::Leaf {
            hook: Some(Hook::F64),
            kind: set![ValueType::Number],
            content: Content::F64(n@),
        },
        Value::String(s) => Tree::Leaf {
            hook: Some(Hook::String),
            kind: set![ValueType::String],
            content: Content::Text(s@),
        },
        Value::Array(items) => Tree::Branch {
            hook: Some(Hook::Array),
            kind: set![ValueType::Array],
            children: Seq::new(
                items@.len(),
                |i: int|
                    Child {
                        segment: Some(Segment::Index(i as nat)),
                        attrs: None,
                        slot: if 0 <= i < items@.len() {
                            value_slot(items@[i])
                        } else {
                            arbitrary()
                        },
                    },
            ),
            bag: None,
        },
        Value::Object(object) => Tree::Branch {
            hook: Some(Hook::Object),
            kind: set![ValueType::Object],
            children: Seq::new(
                object.entries@.len(),
                |i: int|
                    Child {
                        segment: Some(Segment::Key(object.entries@[i].0@)),
                        attrs: None,
                        slot: if 0 <= i < object.entries@.len() {
                            value_slot(object.entries@[i].1)
                        } else {
                            arbitrary()
                        },
                    },
            ),
            bag: None,
        },
    }
}

/// The model of an untyped value: a wrapper around what it holds.
pub open spec fn value_tree(value: Value) -> Tree
    decreases value, 1int,
{
    Tree::Dynamic(Box::new(value_inner(value)))
}

/// Two lists of recorded errors hold the same errors in the same order.
pub open spec fn errors_same(a: Seq<MetaError>, b: Seq<MetaError>) -> bool {
    &&& a.len() == b.len()
    &&& forall|i: int|
        0 <= i < a.len() ==> (#[trigger] a[i]).kind == b[i].kind && a[i].context@ == b[i].context@
}

/// Two untyped values are of one kind and hold the same: the same scalar,
/// or the same annotated values in the same order, under the same keys.
pub open spec fn value_same(a: Value, b: Value) -> bool
    decreases a, 0int,
{
    match (a, b) {
        (Value::Bool(x), Value::Bool(y)) => x == y,
        (Value::I64(x), Value::I64(y)) => x == y,
        (Value::U64(x), Value::U64(y)) => x == y,
        (Value::F64(x), Value::F64(y)) => x.same(y),
        (Value::String(x), Value::String(y)) => x@ == y@,
        (Value::Array(x), Value::Array(y)) => {
            &&& x@.len() == y@.len()
            &&& forall|i: int| 0 <= i < x@.len() ==> slot_same(#[trigger] x@[i], y@[i])
        },
        (Value::Object(x), Value::Object(y)) => {
            &&& x.entries@.len() == y.entries@.len()
            &&& forall|i: int|
                0 <= i < x.entries@.len() ==> (#[trigger] x.entries@[i]).0@ == y.entries@[i].0@
                    && slot_same(x.entries@[i].1, y.entries@[i].1)
        },
        _ => false,
    }
}

/// Two values that may be absent are both absent, or both present and the
/// same.
pub open spec fn held_same(a: Option<Value>, b: Option<Value>) -> bool
    decreases a, 1int,
{
    match (a, b) {
        (Some(x), Some(y)) => value_same(x, y),
        (None, None) => true,
        _ => false,
    }
}

/// Two annotated untyped values hold the same value and the same metadata.
pub open spec fn slot_same(a: Annotated<Value>, b: Annotated<Value>) -> bool
    decreases a, 2int,
{
    &&& held_same(a.0, b.0)
    &&& errors_same(a.1.errors@, b.1.errors@)
    &&& held_same(a.1.original_value, b.1.original_value)
}

fn errors_eq(a: &Vec<MetaError>, b: &Vec<MetaError>) -> (r: bool)
    ensures
        r == errors_same(a@, b@),
{
    if a.len() != b.len() {
        return false;
    }
    let n = a.len();
    let mut i: usize = 0;
    while i < n
        invariant
            n == a@.len(),
            n == b@.len(),
            i <= n,
            forall|j: int|
                0 <= j < i ==> (#[trigger] a@[j]).kind == b@[j].kind && a@[j].context@
                    == b@[j].context@,
        decreases n - i,
    {
        if !(a[i].kind == b[i].kind && a[i].context == b[i].context) {
            return false;
        }
        i += 1;
    }
    true
}

fn held_eq(a: &Option<Value>, b: &Option<Value>) -> (r: bool)
    ensures
        r == held_same(*a, *b),
    decreases *a, 1int,
{
    match (a, b) {
        (Some(x), Some(y)) => value_eq(x, y),
        (None, None) => true,
        _ => false,
    }
}

fn slot_eq(a: &Annotated<Value>, b: &Annotated<Value>) -> (r: bool)
    ensures
        r == slot_same(*a, *b),
    decreases *a, 2int,
{
    held_eq(&a.0, &b.0) && errors_eq(&a.1.errors, &b.1.errors) && held_eq(
        &a.1.original_value,
        &b.1.original_value,
    )
}

fn items_eq(x: &Array<Value>, y: &Array<Value>) -> (r: bool)
    ensures
        r == value_same(Value::Array(*x), Value::Array(*y)),
    decreases *x, 3int,
{
    if x.len() != y.len() {
        return false;
    }
    let n = x.len();
    let mut i: usize = 0;
    while i < n
        invariant
            n == x@.len(),
            n == y@.len(),
            i <= n,
            forall|j: int| 0 <= j < i ==> slot_same(#[trigger] x@[j], y@[j]),
        decreases n - i,
    {
        if !slot_eq(&x[i], &y[i]) {
            return false;
        }
        i += 1;
    }
    true
}

fn entries_eq(x: &Vec<(String, Annotated<Value>)>, y: &Vec<(String, Annotated<Value>)>) -> (r:
    bool)
    ensures
        r == (x@.len() == y@.len() && forall|i: int|
            0 <= i < x@.len() ==> (#[trigger] x@[i]).0@ == y@[i].0@ && slot_same(x@[i].1, y@[i].1)),
    decreases *x, 3int,
{
    if x.len() != y.len() {
        return false;
    }
    let n = x.len();
    let mut i: usize = 0;
    while i < n
        invariant
            n == x@.len(),
            n == y@.len(),
            i <= n,
            forall|j: int|
                0 <= j < i ==> (#[trigger] x@[j]).0@ == y@[j].0@ && slot_same(x@[j].1, y@[j].1),
        decreases n - i,
    {
        let left = &x[i];
        let right = &y[i];
        if !(left.0 == right.0 && slot_eq(&left.1, &right.1)) {
            return false;
        }
        i += 1;
    }
    true
}

/// Whether two untyped values are the same.
pub fn value_eq(a: &Value, b: &Value) -> (r: bool)
    ensures
        r == value_same(*a, *b),
    decreases *a, 0int,
{
    match (a, b) {
        (Value::Bool(x), Value::Bool(y)) => *x == *y,
        (Value::I64(x), Value::I64(y)) => *x == *y,
        (Value::U64(x), Value::U64(y)) => *x == *y,
        (Value::F64(x), Value::F64(y)) => *x == *y,
        (Value::String(x), Value::String(y)) => *x == *y,
        (Value::Array(x), Value::Array(y)) => items_eq(x, y),
        (Value::Object(x), Value::Object(y)) => entries_eq(&x.entries, &y.entries),
        _ => false,
    }
}

impl PartialEq for Value {
    fn eq(&self, other: &Value) -> (r: bool) {
        value_eq(self, other)
    }
}

impl vstd::std_specs::cmp::PartialEqSpecImpl for Value {
    open spec fn obeys_eq_spec() -> bool {
        true
    }

    open spec fn eq_spec(&self, other: &Value) -> bool {
        value_same(*self, *other)
    }
}

} // verus!
