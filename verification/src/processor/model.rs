//! The mathematical model of annotated data, as the engine sees it.
//!
//! Whatever its Rust type, a value that can be processed is a tree: a leaf
//! with some content, a branch with an ordered list of children, or a wrapper
//! around another tree. The tree also says which hook of a processor the node
//! is shown to. The contracts of the engine are stated over these trees.

use crate::attrs::FieldAttrs;
use crate::meta::ErrorKind;
use crate::value_type::ValueType;
use vstd::prelude::*;

verus! {

/// One step of a path: a key of a map or a field of a struct, or a position in
/// a sequence.
pub enum Segment {
    Key(Seq<char>),
    Index(nat),
}

/// The hooks a processor has for the kinds of node.
#[derive(Clone, Copy, PartialEq, Eq, Structural, Debug)]
pub enum Hook {
    String,
    U64,
    I64,
    F64,
    Bool,
    Timestamp,
    Value,
    Array,
    Object,
    PairList,
    Values,
    Event,
    Exception,
    User,
    Geo,
    Request,
    ClientSdkInfo,
    LogEntry,
    Context,
    Contexts,
    TraceContext,
    HeaderName,
}

/// What a leaf holds.
pub enum Content {
    Text(Seq<char>),
    Bool(bool),
    U64(u64),
    I64(i64),
    /// A finite floating-point number, by its encoding.
    F64(u64),
    /// Anything else that has no children, by a number that identifies it.
    Atom(int),
}

/// A recorded error.
pub struct ErrorView {
    pub kind: ErrorKind,
    pub context: Seq<char>,
}

/// The metadata of a node.
pub struct MetaView {
    pub errors: Seq<ErrorView>,
    pub original: Option<Tree>,
}

/// An annotated value: the value, if present, and its metadata.
pub struct Slot {
    pub value: Option<Tree>,
    pub meta: MetaView,
}

/// A child of a branch: the path segment that leads to it, the field policy
/// declared for its position, and what it holds.
pub struct Child {
    /// `None` where the child adds nothing to the path.
    pub segment: Option<Segment>,
    /// `None` where the policy of the parent is passed down unchanged.
    pub attrs: Option<FieldAttrs>,
    pub slot: Slot,
}

/// The children of a struct, written one after the other: the first and the
/// rest.
pub enum ChildList {
    Nil,
    Cons(Child, Box<ChildList>),
}

impl ChildList {
    /// The list without its first child.
    pub open spec fn rest(self) -> ChildList {
        match self {
            ChildList::Nil => ChildList::Nil,
            ChildList::Cons(_, rest) => *rest,
        }
    }

    /// The children as a sequence.
    pub open spec fn seq(self) -> Seq<Child>
        decreases self,
    {
        match self {
            ChildList::Nil => Seq::empty(),
            ChildList::Cons(first, rest) => seq![first] + rest.seq(),
        }
    }
}

/// The list that starts with `first` and goes on with `rest`.
pub open spec fn cons(first: Child, rest: ChildList) -> ChildList {
    ChildList::Cons(first, Box::new(rest))
}

/// The open bag of a struct: the policy declared for it and its entries.
pub struct Bag {
    pub attrs: FieldAttrs,
    pub entries: Seq<Child>,
}

/// A value that can be processed.
pub enum Tree {
    /// A value without children.
    Leaf { hook: Option<Hook>, kind: Set<ValueType>, content: Content },
    /// A sequence, a map, a tuple or a struct.
    Branch { hook: Option<Hook>, kind: Set<ValueType>, children: Seq<Child>, bag: Option<Bag> },
    /// An untyped value, around the tree of what it holds at the moment.
    Dynamic(Box<Tree>),
    /// A type that wraps one other value, with the policy declared for it.
    Newtype { hook: Option<Hook>, attrs: Option<FieldAttrs>, inner: Box<Tree> },
}

impl Tree {
    /// The kinds that the value presents as.
    pub open spec fn kind(self) -> Set<ValueType>
        decreases self,
    {
        match self {
            Tree::Leaf { kind, .. } => kind,
            Tree::Branch { kind, .. } => kind,
            Tree::Dynamic(inner) => inner.kind(),
            Tree::Newtype { inner, .. } => inner.kind(),
        }
    }
}

impl Slot {
    /// The kinds that the value presents as: none where it is absent.
    pub open spec fn kind(self) -> Set<ValueType> {
        match self.value {
            Some(tree) => tree.kind(),
            None => Set::empty(),
        }
    }
}

/// A field of a struct: it is reached by its name and has its own policy.
pub open spec fn field(name: Seq<char>, attrs: FieldAttrs, slot: Slot) -> Child {
    Child { segment: Some(Segment::Key(name)), attrs: Some(attrs), slot }
}

} // verus!
