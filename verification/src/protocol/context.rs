//! The contexts of an event by key.

use crate::annotated::Annotated;
use crate::meta::Meta;
use crate::processor::action::ProcessingResult;
use crate::processor::model::{Hook, Tree};
use crate::processor::state::ProcessingState;
use crate::processor::traits::{Node, ProcessValue, Processor};
use crate::protocol::contexts::{
    AppContext, BrowserContext, DeviceContext, GpuContext, MonitorContext, OsContext,
    ProfileContext, ResponseContext, RuntimeContext, TraceContext,
};
use crate::value::{Object, Value};
use crate::value_type::ValueTypeSet;
use vstd::prelude::*;

verus! {

/// One context of an event.
#[derive(Debug)]
pub enum Context {
    Device(Box<DeviceContext>),
    Os(Box<OsContext>),
    Runtime(Box<RuntimeContext>),
    App(Box<AppContext>),
    Browser(Box<BrowserContext>),
    Gpu(Box<GpuContext>),
    Monitor(Box<MonitorContext>),
    Profile(Box<ProfileContext>),
    Trace(Box<TraceContext>),
    Response(Box<ResponseContext>),
    /// A context of a kind that the schema does not know.
    Other(Object<Value>),
}

impl Context {
    /// The model of what the context holds.
    pub open spec fn held(&self) -> Tree {
        match self {
            Context::Device(c) => c.tree(),
            Context::Os(c) => c.tree(),
            Context::Runtime(c) => c.tree(),
            Context::App(c) => c.tree(),
            Context::Browser(c) => c.tree(),
            Context::Gpu(c) => c.tree(),
            Context::Monitor(c) => c.tree(),
            Context::Profile(c) => c.tree(),
            Context::Trace(c) => c.tree(),
            Context::Response(c) => c.tree(),
            Context::Other(c) => c.tree(),
        }
    }
}

impl Node for Context {
    open spec fn tree(&self) -> Tree {
        crate::protocol::types::wrapper(Some(Hook::Context), self.held())
    }
}

impl ProcessValue for Context {
    fn value_type(&self) -> (r: ValueTypeSet) {
        proof {
            reveal_with_fuel(Tree::kind, 2);
        }
        match self {
            Context::Device(c) => c.value_type(),
            Context::Os(c) => c.value_type(),
            Context::Runtime(c) => c.value_type(),
            Context::App(c) => c.value_type(),
            Context::Browser(c) => c.value_type(),
            Context::Gpu(c) => c.value_type(),
            Context::Monitor(c) => c.value_type(),
            Context::Profile(c) => c.value_type(),
            Context::Trace(c) => c.value_type(),
            Context::Response(c) => c.value_type(),
            Context::Other(c) => c.value_type(),
        }
    }

    fn process_value<P: Processor>(
        &mut self,
        meta: &mut Meta,
        processor: &mut P,
        state: &ProcessingState<'_>,
    ) -> (r: ProcessingResult) {
        processor.process_context(&*self, meta, state)?;
        let inner = state.enter_nothing(None);
        match self {
            Context::Device(c) => c.process_value(meta, processor, &inner),
            Context::Os(c) => c.process_value(meta, processor, &inner),
            Context::Runtime(c) => c.process_value(meta, processor, &inner),
            Context::App(c) => c.process_value(meta, processor, &inner),
            Context::Browser(c) => c.process_value(meta, processor, &inner),
            Context::Gpu(c) => c.process_value(meta, processor, &inner),
            Context::Monitor(c) => c.process_value(meta, processor, &inner),
            Context::Profile(c) => c.process_value(meta, processor, &inner),
            Context::Trace(c) => c.process_value(meta, processor, &inner),
            Context::Response(c) => c.process_value(meta, processor, &inner),
            Context::Other(c) => c.process_value(meta, processor, &inner),
        }
    }

    fn process_child_values<P: Processor>(
        &mut self,
        processor: &mut P,
        state: &ProcessingState<'_>,
    ) -> (r: ProcessingResult) {
        Ok(())
    }
}

/// A context as an entry of the map of contexts.
#[derive(Debug)]
pub struct ContextInner(pub Context);

impl Node for ContextInner {
    open spec fn tree(&self) -> Tree {
        crate::protocol::types::wrapper(None, self.0.tree())
    }
}

impl ProcessValue for ContextInner {
    fn value_type(&self) -> (r: ValueTypeSet) {
        proof {
            reveal_with_fuel(Tree::kind, 3);
        }
        self.0.value_type()
    }

    fn process_value<P: Processor>(
        &mut self,
        meta: &mut Meta,
        processor: &mut P,
        state: &ProcessingState<'_>,
    ) -> (r: ProcessingResult) {
        let inner = state.enter_nothing(None);
        self.0.process_value(meta, processor, &inner)
    }

    fn process_child_values<P: Processor>(
        &mut self,
        processor: &mut P,
        state: &ProcessingState<'_>,
    ) -> (r: ProcessingResult) {
        Ok(())
    }
}

/// The contexts of an event, each under its key.
#[derive(Debug)]
pub struct Contexts(pub Object<ContextInner>);

impl Node for Contexts {
    open spec fn tree(&self) -> Tree {
        crate::protocol::types::wrapper(Some(Hook::Contexts), self.0.tree())
    }
}

impl ProcessValue for Contexts {
    fn value_type(&self) -> (r: ValueTypeSet) {
        proof {
            reveal_with_fuel(Tree::kind, 2);
        }
        self.0.value_type()
    }

    fn process_value<P: Processor>(
        &mut self,
        meta: &mut Meta,
        processor: &mut P,
        state: &ProcessingState<'_>,
    ) -> (r: ProcessingResult) {
        processor.process_contexts(&*self, meta, state)?;
        let inner = state.enter_nothing(None);
        self.0.process_value(meta, processor, &inner)
    }

    fn process_child_values<P: Processor>(
        &mut self,
        processor: &mut P,
        state: &ProcessingState<'_>,
    ) -> (r: ProcessingResult) {
        Ok(())
    }
}

/// A kind of context that has a key of its own in the map of contexts.
pub trait DefaultContext: Sized {
    /// The key under which a context of this kind is stored.
    spec fn key() -> Seq<char>;

    /// The context of this kind that `context` holds, if it holds one.
    spec fn held_by(context: Context) -> Option<Self>;

    /// The key under which a context of this kind is stored.
    fn default_key() -> (r: &'static str)
        ensures
            r@ == Self::key(),
    ;

    /// Takes the context of this kind out of `context`, if it holds one.
    fn from_context(context: Context) -> (r: Option<Self>)
        ensures
            r == Self::held_by(context),
    ;

    /// The context of this kind that `context` holds, if it holds one.
    fn cast(context: &Context) -> (r: Option<&Self>)
        ensures
            r == match Self::held_by(*context) {
                Some(c) => Some(&c),
                None => None,
            },
    ;

    /// The context of this kind that `context` holds, if it holds one, for
    /// change. What is changed is the context that `context` holds.
    fn cast_mut(context: &mut Context) -> (r: Option<&mut Self>)
        ensures
            match r {
                Some(held) => {
                    &&& Self::held_by(*old(context)) == Some(*held)
                    &&& Self::held_by(*final(context)) == Some(*final(held))
                },
                None => Self::held_by(*old(context)) is None && *final(context) == *old(context),
            },
    ;

    /// This context as a context of any kind: the one that `held_by` finds
    /// this context in.
    fn into_context(self) -> (r: Context)
        ensures
            Self::held_by(r) == Some(self),
    ;
}

impl DefaultContext for DeviceContext {
    open spec fn key() -> Seq<char> {
        "device"@
    }

    open spec fn held_by(context: Context) -> Option<Self> {
        match context {
            Context::Device(c) => Some(*c),
            _ => None,
        }
    }

    fn default_key() -> (r: &'static str) {
        "device"
    }

    fn from_context(context: Context) -> (r: Option<Self>) {
        match context {
            Context::Device(c) => Some(*c),
            _ => None,
        }
    }

    fn cast(context: &Context) -> (r: Option<&Self>) {
        match context {
            Context::Device(c) => Some(&**c),
            _ => None,
        }
    }

    fn cast_mut(context: &mut Context) -> (r: Option<&mut Self>) {
        match context {
            Context::Device(c) => Some(&mut **c),
            _ => None,
        }
    }

    fn into_context(self) -> (r: Context) {
        Context::Device(Box::new(self))
    }
}

impl DefaultContext for OsContext {
    open spec fn key() -> Seq<char> {
        "os"@
    }

    open spec fn held_by(context: Context) -> Option<Self> {
        match context {
            Context::Os(c) => Some(*c),
            _ => None,
        }
    }

    fn default_key() -> (r: &'static str) {
        "os"
    }

    fn from_context(context: Context) -> (r: Option<Self>) {
        match context {
            Context::Os(c) => Some(*c),
            _ => None,
        }
    }

    fn cast(context: &Context) -> (r: Option<&Self>) {
        match context {
            Context::Os(c) => Some(&**c),
            _ => None,
        }
    }

    fn cast_mut(context: &mut Context) -> (r: Option<&mut Self>) {
        match context {
            Context::Os(c) => Some(&mut **c),
            _ => None,
        }
    }

    fn into_context(self) -> (r: Context) {
        Context::Os(Box::new(self))
    }
}

impl DefaultContext for RuntimeContext {
    open spec fn key() -> Seq<char> {
        "runtime"@
    }

    open spec fn held_by(context: Context) -> Option<Self> {
        match context {
            Context::Runtime(c) => Some(*c),
            _ => None,
        }
    }

    fn default_key() -> (r: &'static str) {
        "runtime"
    }

    fn from_context(context: Context) -> (r: Option<Self>) {
        match context {
            Context::Runtime(c) => Some(*c),
            _ => None,
        }
    }

    fn cast(context: &Context) -> (r: Option<&Self>) {
        match context {
            Context::Runtime(c) => Some(&**c),
            _ => None,
        }
    }

    fn cast_mut(context: &mut Context) -> (r: Option<&mut Self>) {
        match context {
            Context::Runtime(c) => Some(&mut **c),
            _ => None,
        }
    }

    fn into_context(self) -> (r: Context) {
        Context::Runtime(Box::new(self))
    }
}

impl DefaultContext for AppContext {
    open spec fn key() -> Seq<char> {
        "app"@
    }

    open spec fn held_by(context: Context) -> Option<Self> {
        match context {
            Context::App(c) => Some(*c),
            _ => None,
        }
    }

    fn default_key() -> (r: &'static str) {
        "app"
    }

    fn from_context(context: Context) -> (r: Option<Self>) {
        match context {
            Context::App(c) => Some(*c),
            _ => None,
        }
    }

    fn cast(context: &Context) -> (r: Option<&Self>) {
        match context {
            Context::App(c) => Some(&**c),
            _ => None,
        }
    }

    fn cast_mut(context: &mut Context) -> (r: Option<&mut Self>) {
        match context {
            Context::App(c) => Some(&mut **c),
            _ => None,
        }
    }

    fn into_context(self) -> (r: Context) {
        Context::App(Box::new(self))
    }
}

impl DefaultContext for BrowserContext {
    open spec fn key() -> Seq<char> {
        "browser"@
    }

    open spec fn held_by(context: Context) -> Option<Self> {
        match context {
            Context::Browser(c) => Some(*c),
            _ => None,
        }
    }

    fn default_key() -> (r: &'static str) {
        "browser"
    }

    fn from_context(context: Context) -> (r: Option<Self>) {
        match context {
            Context::Browser(c) => Some(*c),
            _ => None,
        }
    }

    fn cast(context: &Context) -> (r: Option<&Self>) {
        match context {
            Context::Browser(c) => Some(&**c),
            _ => None,
        }
    }

    fn cast_mut(context: &mut Context) -> (r: Option<&mut Self>) {
        match context {
            Context::Browser(c) => Some(&mut **c),
            _ => None,
        }
    }

    fn into_context(self) -> (r: Context) {
        Context::Browser(Box::new(self))
    }
}

impl DefaultContext for GpuContext {
    open spec fn key() -> Seq<char> {
        "gpu"@
    }

    open spec fn held_by(context: Context) -> Option<Self> {
        match context {
            Context::Gpu(c) => Some(*c),
            _ => None,
        }
    }

    fn default_key() -> (r: &'static str) {
        "gpu"
    }

    fn from_context(context: Context) -> (r: Option<Self>) {
        match context {
            Context::Gpu(c) => Some(*c),
            _ => None,
        }
    }

    fn cast(context: &Context) -> (r: Option<&Self>) {
        match context {
            Context::Gpu(c) => Some(&**c),
            _ => None,
        }
    }

    fn cast_mut(context: &mut Context) -> (r: Option<&mut Self>) {
        match context {
            Context::Gpu(c) => Some(&mut **c),
            _ => None,
        }
    }

    fn into_context(self) -> (r: Context) {
        Context::Gpu(Box::new(self))
    }
}

impl DefaultContext for MonitorContext {
    open spec fn key() -> Seq<char> {
        "monitor"@
    }

    open spec fn held_by(context: Context) -> Option<Self> {
        match context {
            Context::Monitor(c) => Some(*c),
            _ => None,
        }
    }

    fn default_key() -> (r: &'static str) {
        "monitor"
    }

    fn from_context(context: Context) -> (r: Option<Self>) {
        match context {
            Context::Monitor(c) => Some(*c),
            _ => None,
        }
    }

    fn cast(context: &Context) -> (r: Option<&Self>) {
        match context {
            Context::Monitor(c) => Some(&**c),
            _ => None,
        }
    }

    fn cast_mut(context: &mut Context) -> (r: Option<&mut Self>) {
        match context {
            Context::Monitor(c) => Some(&mut **c),
            _ => None,
        }
    }

    fn into_context(self) -> (r: Context) {
        Context::Monitor(Box::new(self))
    }
}

impl DefaultContext for ProfileContext {
    open spec fn key() -> Seq<char> {
        "profile"@
    }

    open spec fn held_by(context: Context) -> Option<Self> {
        match context {
            Context::Profile(c) => Some(*c),
            _ => None,
        }
    }

    fn default_key() -> (r: &'static str) {
        "profile"
    }

    fn from_context(context: Context) -> (r: Option<Self>) {
        match context {
            Context::Profile(c) => Some(*c),
            _ => None,
        }
    }

    fn cast(context: &Context) -> (r: Option<&Self>) {
        match context {
            Context::Profile(c) => Some(&**c),
            _ => None,
        }
    }

    fn cast_mut(context: &mut Context) -> (r: Option<&mut Self>) {
        match context {
            Context::Profile(c) => Some(&mut **c),
            _ => None,
        }
    }

    fn into_context(self) -> (r: Context) {
        Context::Profile(Box::new(self))
    }
}

impl DefaultContext for TraceContext {
    open spec fn key() -> Seq<char> {
        "trace"@
    }

    open spec fn held_by(context: Context) -> Option<Self> {
        match context {
            Context::Trace(c) => Some(*c),
            _ => None,
        }
    }

    fn default_key() -> (r: &'static str) {
        "trace"
    }

    fn from_context(context: Context) -> (r: Option<Self>) {
        match context {
            Context::Trace(c) => Some(*c),
            _ => None,
        }
    }

    fn cast(context: &Context) -> (r: Option<&Self>) {
        match context {
            Context::Trace(c) => Some(&**c),
            _ => None,
        }
    }

    fn cast_mut(context: &mut Context) -> (r: Option<&mut Self>) {
        match context {
            Context::Trace(c) => Some(&mut **c),
            _ => None,
        }
    }

    fn into_context(self) -> (r: Context) {
        Context::Trace(Box::new(self))
    }
}

impl DefaultContext for ResponseContext {
    open spec fn key() -> Seq<char> {
        "response"@
    }

    open spec fn held_by(context: Context) -> Option<Self> {
        match context {
            Context::Response(c) => Some(*c),
            _ => None,
        }
    }

    fn default_key() -> (r: &'static str) {
        "response"
    }

    fn from_context(context: Context) -> (r: Option<Self>) {
        match context {
            Context::Response(c) => Some(*c),
            _ => None,
        }
    }

    fn cast(context: &Context) -> (r: Option<&Self>) {
        match context {
            Context::Response(c) => Some(&**c),
            _ => None,
        }
    }

    fn cast_mut(context: &mut Context) -> (r: Option<&mut Self>) {
        match context {
            Context::Response(c) => Some(&mut **c),
            _ => None,
        }
    }

    fn into_context(self) -> (r: Context) {
        Context::Response(Box::new(self))
    }
}

impl Contexts {
    /// No contexts.
    pub fn new() -> (r: Contexts)
        ensures
            r.0@.len() == 0,
            r.0.wf(),
    {
        Contexts(Object::new())
    }

    /// The context under `key`, where the key occurs and its context is
    /// present.
    pub open spec fn at(&self, key: Seq<char>) -> Option<Context> {
        match self.0.lookup(key) {
            Some(entry) => match entry.0 {
                Some(inner) => Some(inner.0),
                None => None,
            },
            None => None,
        }
    }

    /// The context of the kind `C` under the key of that kind.
    pub open spec fn of_kind<C: DefaultContext>(&self) -> Option<C> {
        match self.at(C::key()) {
            Some(context) => C::held_by(context),
            None => None,
        }
    }

    /// The context under `key`, where the key occurs and its context is
    /// present.
    pub fn get_key(&self, key: &str) -> (r: Option<&Context>)
        ensures
            r == match self.at(key@) {
                Some(c) => Some(&c),
                None => None,
            },
    {
        match self.0.get(key) {
            Some(entry) => match entry.value() {
                Some(inner) => Some(&inner.0),
                None => None,
            },
            None => None,
        }
    }

    /// The context of the kind `C` under the key of that kind.
    pub fn get<C: DefaultContext>(&self) -> (r: Option<&C>)
        ensures
            r == match self.of_kind::<C>() {
                Some(c) => Some(&c),
                None => None,
            },
    {
        match self.get_key(C::default_key()) {
            Some(context) => C::cast(context),
            None => None,
        }
    }

    /// The context of the kind `C` under the key of that kind, for change.
    /// The keys, the metadata and the other contexts stay.
    pub fn get_mut<C: DefaultContext>(&mut self) -> (r: Option<&mut C>)
        ensures
            match r {
                Some(held) => {
                    &&& old(self).of_kind::<C>() == Some(*held)
                    &&& final(self).of_kind::<C>() == Some(*final(held))
                    &&& crate::value::position_of(old(self).0@, C::key()) matches Some(i)
                    &&& final(self).0@.len() == old(self).0@.len()
                    &&& final(self).0@[i].0 == old(self).0@[i].0
                    &&& final(self).0@[i].1.1 == old(self).0@[i].1.1
                    &&& forall|j: int|
                        0 <= j < old(self).0@.len() && j != i ==> final(self).0@[j]
                            == old(self).0@[j]
                },
                None => old(self).of_kind::<C>() is None && final(self).0@ == old(self).0@,
            },
    {
        let ghost before = self.0@;
        proof {
            crate::value::lemma_position_of(before, C::key());
            assert forall|at: int, value: Annotated<ContextInner>|
                0 <= at < before.len() implies #[trigger] crate::value::position_of(
                before.update(at, (before[at].0, value)),
                C::key(),
            ) == crate::value::position_of(before, C::key()) by {
                crate::value::lemma_position_kept(before, at, value, C::key());
            }
        }
        match self.0.get_mut(C::default_key()) {
            Some(entry) => match &mut entry.0 {
                Some(inner) => C::cast_mut(&mut inner.0),
                None => None,
            },
            None => None,
        }
    }

    /// Stores `context` under the key of its kind, without metadata. Where
    /// the key occurs already, what was under it is replaced in place;
    /// otherwise the context is added after the others. Every entry under
    /// another key stays as it is.
    pub fn add<C: DefaultContext>(&mut self, context: C)
        requires
            old(self).0.wf(),
        ensures
            final(self).0.wf(),
            final(self).of_kind::<C>() == Some(context),
            match crate::value::position_of(old(self).0@, C::key()) {
                Some(at) => {
                    &&& final(self).0@.len() == old(self).0@.len()
                    &&& crate::value::position_of(final(self).0@, C::key()) == Some(at)
                    &&& final(self).0@[at].1.1.errors@.len() == 0
                    &&& final(self).0@[at].1.1.original_value is None
                    &&& forall|j: int|
                        0 <= j < old(self).0@.len() && j != at ==> final(self).0@[j]
                            == old(self).0@[j]
                },
                None => {
                    &&& final(self).0@.len() == old(self).0@.len() + 1
                    &&& crate::value::position_of(final(self).0@, C::key())
                        == Some(old(self).0@.len() as int)
                    &&& final(self).0@.last().1.1.errors@.len() == 0
                    &&& final(self).0@.last().1.1.original_value is None
                    &&& forall|j: int|
                        0 <= j < old(self).0@.len() ==> final(self).0@[j] == old(self).0@[j]
                },
            },
    {
        let key = C::default_key().to_owned();
        let ghost before = self.0@;
        proof {
            crate::value::lemma_position_of(before, key@);
        }
        self.0.insert(key, Annotated::new(ContextInner(context.into_context())));
        proof {
            crate::value::lemma_position_of(self.0@, C::key());
        }
    }
}

} // verus!
