//! The context of a traversal: where it stands and what holds there.

use crate::attrs::FieldAttrs;
use crate::processor::model::Segment;
use crate::text::push_decimal;
use crate::value_type::{ValueType, ValueTypeSet};
use vstd::prelude::*;
use vstd::string::StringExecFns;

verus! {

/// One step of a path, as a state holds it.
#[derive(Clone, Copy, Debug)]
pub enum PathItem<'a> {
    /// A key of a map or a field of a struct.
    StaticKey(&'a str),
    /// A position in a sequence.
    Index(usize),
}

impl<'a> PathItem<'a> {
    pub open spec fn view(&self) -> Segment {
        match self {
            PathItem::StaticKey(key) => Segment::Key(key@),
            PathItem::Index(index) => Segment::Index(*index as nat),
        }
    }
}

/// What a state stands for: the path from the root, the field policy in
/// effect, the kinds expected at this place, and the depth.
pub struct StateView {
    pub path: Seq<Segment>,
    pub attrs: FieldAttrs,
    pub value_type: Set<ValueType>,
    pub depth: nat,
}

/// The text of one path segment.
pub open spec fn segment_text(segment: Segment) -> Seq<char> {
    match segment {
        Segment::Key(key) => key,
        Segment::Index(index) => crate::text::decimal(index),
    }
}

/// The text of a path: its segments from the root down, joined by periods.
pub open spec fn path_text(path: Seq<Segment>) -> Seq<char>
    decreases path.len(),
{
    if path.len() == 0 {
        Seq::empty()
    } else if path.len() == 1 {
        segment_text(path[0])
    } else {
        path_text(path.drop_last()) + seq!['.'] + segment_text(path.last())
    }
}

impl StateView {
    /// The state of the root.
    pub open spec fn root() -> StateView {
        StateView {
            path: Seq::empty(),
            attrs: FieldAttrs::new(),
            value_type: Set::empty(),
            depth: 0,
        }
    }

    /// The depth below this state. It stays where the machine cannot count on.
    pub open spec fn deeper(self) -> nat {
        if self.depth < usize::MAX {
            self.depth + 1
        } else {
            self.depth
        }
    }

    /// The state of a child that adds `segment` to the path. Where `attrs` is
    /// `None`, the policy of this state is passed down unchanged.
    pub open spec fn enter(
        self,
        segment: Segment,
        attrs: Option<FieldAttrs>,
        value_type: Set<ValueType>,
    ) -> StateView {
        StateView {
            path: self.path.push(segment),
            attrs: match attrs {
                Some(own) => own,
                None => self.attrs,
            },
            value_type,
            depth: self.deeper(),
        }
    }

    /// The state of a child that adds nothing to the path: the same place,
    /// seen with another policy.
    pub open spec fn enter_nothing(self, attrs: Option<FieldAttrs>) -> StateView {
        StateView {
            path: self.path,
            attrs: match attrs {
                Some(own) => own,
                None => self.attrs,
            },
            value_type: self.value_type,
            depth: self.depth,
        }
    }
}

/// An immutable link in the chain of states of a traversal. Deriving the state
/// of a child borrows the parent and changes nothing in it.
#[derive(Debug)]
pub struct ProcessingState<'a> {
    parent: Option<&'a ProcessingState<'a>>,
    path_item: Option<PathItem<'a>>,
    attrs: Option<FieldAttrs>,
    value_type: ValueTypeSet,
    depth: usize,
}

impl<'a> ProcessingState<'a> {
    /// The path from the root to this state.
    pub closed spec fn path_segments(&self) -> Seq<Segment>
        decreases self,
    {
        let above = match self.parent {
            Some(parent) => parent.path_segments(),
            None => Seq::empty(),
        };
        match self.path_item {
            Some(item) => above.push(item@),
            None => above,
        }
    }

    /// The policy in effect: that of the nearest state, from here up, that
    /// sets one, and the policy that declares nothing where none does.
    pub closed spec fn effective_attrs(&self) -> FieldAttrs
        decreases self,
    {
        match self.attrs {
            Some(own) => own,
            None => match self.parent {
                Some(parent) => parent.effective_attrs(),
                None => FieldAttrs::new(),
            },
        }
    }

    /// The step that this state added to the path, where it added one.
    pub closed spec fn last_item(&self) -> Option<Segment> {
        match self.path_item {
            Some(item) => Some(item@),
            None => None,
        }
    }

    pub closed spec fn view(&self) -> StateView {
        StateView {
            path: self.path_segments(),
            attrs: self.effective_attrs(),
            value_type: self.value_type@,
            depth: self.depth as nat,
        }
    }

    /// The state of the root: no path, no policy, no expected kind.
    pub fn root() -> (r: ProcessingState<'static>)
        ensures
            r@ == StateView::root(),
            r.last_item() is None,
    {
        ProcessingState {
            parent: None,
            path_item: None,
            attrs: None,
            value_type: ValueTypeSet::empty(),
            depth: 0,
        }
    }

    /// A root state with a policy and expected kinds of its own.
    pub fn new_root(attrs: Option<FieldAttrs>, value_type: ValueTypeSet) -> (r: ProcessingState<
        'static,
    >)
        ensures
            r@ == (StateView { value_type: value_type@, ..StateView::root().enter_nothing(attrs) }),
            r.last_item() is None,
    {
        ProcessingState { parent: None, path_item: None, attrs, value_type, depth: 0 }
    }

    /// The state of the field `key` of the node at this state.
    pub fn enter_static(
        &'a self,
        key: &'static str,
        attrs: Option<FieldAttrs>,
        value_type: ValueTypeSet,
    ) -> (r: ProcessingState<'a>)
        ensures
            r@ == self@.enter(Segment::Key(key@), attrs, value_type@),
            r.last_item() == Some(Segment::Key(key@)),
    {
        ProcessingState {
            parent: Some(self),
            path_item: Some(PathItem::StaticKey(key)),
            attrs,
            value_type,
            depth: self.depth.saturating_add(1),
        }
    }

    /// The state of the entry `key` of the map at this state.
    pub fn enter_borrowed(
        &'a self,
        key: &'a str,
        attrs: Option<FieldAttrs>,
        value_type: ValueTypeSet,
    ) -> (r: ProcessingState<'a>)
        ensures
            r@ == self@.enter(Segment::Key(key@), attrs, value_type@),
            r.last_item() == Some(Segment::Key(key@)),
    {
        ProcessingState {
            parent: Some(self),
            path_item: Some(PathItem::StaticKey(key)),
            attrs,
            value_type,
            depth: self.depth.saturating_add(1),
        }
    }

    /// The state of the element at position `index` of the sequence at this
    /// state.
    pub fn enter_index(
        &'a self,
        index: usize,
        attrs: Option<FieldAttrs>,
        value_type: ValueTypeSet,
    ) -> (r: ProcessingState<'a>)
        ensures
            r@ == self@.enter(Segment::Index(index as nat), attrs, value_type@),
            r.last_item() == Some(Segment::Index(index as nat)),
    {
        ProcessingState {
            parent: Some(self),
            path_item: Some(PathItem::Index(index)),
            attrs,
            value_type,
            depth: self.depth.saturating_add(1),
        }
    }

    /// The state of what a wrapper holds: the same place and depth, with the
    /// policy `attrs` where one is given.
    pub fn enter_nothing(&'a self, attrs: Option<FieldAttrs>) -> (r: ProcessingState<'a>)
        ensures
            r@ == self@.enter_nothing(attrs),
            r.last_item() is None,
    {
        ProcessingState {
            parent: Some(self),
            path_item: None,
            attrs,
            value_type: self.value_type,
            depth: self.depth,
        }
    }

    /// The policy in effect at this state.
    pub fn attrs(&self) -> (r: FieldAttrs)
        ensures
            r == self@.attrs,
        decreases self,
    {
        match self.attrs {
            Some(own) => own,
            None => match self.parent {
                Some(parent) => parent.attrs(),
                None => FieldAttrs::new(),
            },
        }
    }

    /// The kinds expected at this state.
    pub fn value_type(&self) -> (r: ValueTypeSet)
        ensures
            r@ == self@.value_type,
    {
        self.value_type
    }

    /// The number of path-adding steps from the root to this state.
    pub fn depth(&self) -> (r: usize)
        ensures
            r == self@.depth,
    {
        self.depth
    }

    /// The last step of the path, where this state added one.
    pub fn path_item(&self) -> (r: Option<PathItem<'a>>)
        ensures
            match r {
                Some(item) => self.last_item() == Some(item@) && self@.path.len() > 0 && item@
                    == self@.path.last(),
                None => self.last_item() is None,
            },
    {
        self.path_item
    }

    /// Writes the path of this state after what `out` holds, and says whether
    /// the path has a segment.
    fn write_path(&self, out: &mut String) -> (any: bool)
        ensures
            any == (self.path_segments().len() > 0),
            final(out)@ == old(out)@ + path_text(self.path_segments()),
        decreases self,
    {
        let above = match self.parent {
            Some(parent) => parent.write_path(out),
            None => false,
        };
        let ghost upper = match self.parent {
            Some(parent) => parent.path_segments(),
            None => Seq::empty(),
        };
        assert(out@ == old(out)@ + path_text(upper));
        match self.path_item {
            Some(item) => {
                if above {
                    proof {
                        reveal_strlit(".");
                    }
                    out.append(".");
                }
                match item {
                    PathItem::StaticKey(key) => {
                        out.append(key);
                    },
                    PathItem::Index(index) => {
                        push_decimal(out, index);
                    },
                }
                proof {
                    let all = self.path_segments();
                    assert(all == upper.push(item@));
                    assert(all.drop_last() =~= upper);
                    assert(all.last() == item@);
                    if above {
                        assert(out@ =~= old(out)@ + (path_text(upper) + seq!['.'] + segment_text(
                            item@,
                        )));
                    } else {
                        assert(path_text(upper) =~= Seq::<char>::empty());
                        assert(out@ =~= old(out)@ + segment_text(item@));
                    }
                }
                true
            },
            None => above,
        }
    }

    /// The path of this state as text: the segments from the root down, joined
    /// by periods. It is built when asked for, by walking the chain of states.
    pub fn path(&self) -> (r: String)
        ensures
            r@ == path_text(self@.path),
    {
        let mut out = String::new();
        self.write_path(&mut out);
        assert(out@ =~= path_text(self.path_segments()));
        out
    }
}

} // verus!
