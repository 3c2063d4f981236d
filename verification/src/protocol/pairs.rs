//! Tags and headers: lists of pairs of a key and a value.

use crate::annotated::Annotated;
use crate::attrs::FieldAttrs;
use crate::meta::Meta;
use crate::processor::action::ProcessingResult;
use crate::processor::impls::{for_field, process_value};
use crate::processor::model::{Child, Tree};
use crate::processor::state::ProcessingState;
use crate::processor::traits::{Node, ProcessValue, Processor};
use crate::protocol::types::{HeaderName, HeaderValue, PairList};
use crate::text::{eq_ignore_ascii_case, str_eq};
use crate::value_type::ValueTypeSet;
use vstd::prelude::*;

verus! {

/// A tag: its key and its value.
#[derive(Debug)]
pub struct TagEntry(pub Annotated<String>, pub Annotated<String>);

impl TagEntry {
    /// The key and the value as children, under the names `0` and `1`.
    pub open spec fn children(&self) -> Seq<Child> {
        seq![
            crate::processor::model::field(
                "0"@,
                FieldAttrs::new().max_chars(200),
                crate::processor::traits::slot_of(self.0),
            ),
            crate::processor::model::field(
                "1"@,
                FieldAttrs::new().max_chars(200),
                crate::processor::traits::slot_of(self.1),
            ),
        ]
    }
}

impl Node for TagEntry {
    open spec fn tree(&self) -> Tree {
        Tree::Branch { hook: None, kind: Set::empty(), children: self.children(), bag: None }
    }
}

impl ProcessValue for TagEntry {
    fn value_type(&self) -> (r: ValueTypeSet) {
        ValueTypeSet::empty()
    }

    fn process_value<P: Processor>(
        &mut self,
        meta: &mut Meta,
        processor: &mut P,
        state: &ProcessingState<'_>,
    ) -> (r: ProcessingResult) {
        self.process_child_values(processor, state)
    }

    fn process_child_values<P: Processor>(
        &mut self,
        processor: &mut P,
        state: &ProcessingState<'_>,
    ) -> (r: ProcessingResult) {
        let ghost orig = self.children();
        let ghost first = *processor;
        let child = state.enter_static(
            "0",
            Some(FieldAttrs::new().max_chars(200)),
            for_field(&self.0),
        );
        let r = process_value(&mut self.0, processor, &child);
        assert(self.children() =~= orig.update(
            0,
            Child { slot: crate::processor::traits::slot_of(self.0), ..orig[0] },
        ));
        if r.is_err() {
            return r;
        }
        assert(crate::processor::walk::visit_from(first, orig, orig, 0, state@)
            == crate::processor::walk::visit_from(*processor, orig, self.children(), 1, state@));
        let child = state.enter_static(
            "1",
            Some(FieldAttrs::new().max_chars(200)),
            for_field(&self.1),
        );
        let ghost before = self.children();
        let r = process_value(&mut self.1, processor, &child);
        assert(self.children() =~= before.update(
            1,
            Child { slot: crate::processor::traits::slot_of(self.1), ..orig[1] },
        ));
        if r.is_err() {
            return r;
        }
        assert(crate::processor::walk::visit_from(first, orig, orig, 0, state@)
            == crate::processor::walk::visit_from(*processor, orig, self.children(), 2, state@));
        Ok(())
    }
}

/// The tags of an event.
#[derive(Debug)]
pub struct Tags(pub PairList<TagEntry>);

/// One header: its name and its value.
pub type Header = (Annotated<HeaderName>, Annotated<HeaderValue>);

/// The headers of a request.
#[derive(Debug)]
pub struct Headers(pub PairList<Header>);

impl Node for Tags {
    open spec fn tree(&self) -> Tree {
        crate::protocol::types::wrapper(None, self.0.tree())
    }
}

impl Node for Headers {
    open spec fn tree(&self) -> Tree {
        crate::protocol::types::wrapper(None, self.0.tree())
    }
}

impl ProcessValue for Tags {
    fn value_type(&self) -> (r: ValueTypeSet) {
        proof {
            reveal_with_fuel(Tree::kind, 2);
        }
        self.0.value_type()
    }

    fn process_value<P: Processor>(
        &mut self,
        meta: &mut Meta,
        processor: &mut P,
        state: &ProcessingState<'_>,
    ) -> (r: ProcessingResult) {
        let inner = state.enter_nothing(None);
        self.0.process_value(meta, processor, &inner)
    }

    fn process_child_values<P: Processor>(
        &mut self,
        processor: &mut P,
        state: &ProcessingState<'_>,
    ) -> (r: ProcessingResult) {
        Ok(())
    }
}

impl ProcessValue for Headers {
    fn value_type(&self) -> (r: ValueTypeSet) {
        proof {
            reveal_with_fuel(Tree::kind, 2);
        }
        self.0.value_type()
    }

    fn process_value<P: Processor>(
        &mut self,
        meta: &mut Meta,
        processor: &mut P,
        state: &ProcessingState<'_>,
    ) -> (r: ProcessingResult) {
        let inner = state.enter_nothing(None);
        self.0.process_value(meta, processor, &inner)
    }

    fn process_child_values<P: Processor>(
        &mut self,
        processor: &mut P,
        state: &ProcessingState<'_>,
    ) -> (r: ProcessingResult) {
        Ok(())
    }
}

/// The key of the tag at a position of a list, where the tag and its key are
/// present.
pub open spec fn tag_key(entry: Annotated<TagEntry>) -> Option<Seq<char>> {
    match entry.0 {
        Some(tag) => tag.0.text(),
        None => None,
    }
}

/// The value of the tag at a position of a list, where the tag and its value
/// are present.
pub open spec fn tag_text(entry: Annotated<TagEntry>) -> Option<Seq<char>> {
    match entry.0 {
        Some(tag) => tag.1.text(),
        None => None,
    }
}

/// The value of the header at a position of a list, where the header and its
/// value are present.
pub open spec fn header_text(entry: Annotated<Header>) -> Option<Seq<char>> {
    match entry.0 {
        Some(header) => header.1.text(),
        None => None,
    }
}

/// The value of the first tag of `tags[from..]` whose key is `key`. It is
/// `None` where there is no such tag, and where the value of that tag is
/// absent.
pub open spec fn tag_from(tags: Seq<Annotated<TagEntry>>, key: Seq<char>, from: int) -> Option<
    Seq<char>,
>
    decreases tags.len() - from,
{
    if 0 <= from < tags.len() {
        if tag_key(tags[from]) == Some(key) {
            tag_text(tags[from])
        } else {
            tag_from(tags, key, from + 1)
        }
    } else {
        None
    }
}

/// The name of the header at a position of a list, where the header and its
/// name are present.
pub open spec fn header_name(entry: Annotated<Header>) -> Option<Seq<char>> {
    match entry.0 {
        Some(header) => header.0.text(),
        None => None,
    }
}

/// Whether the header at a position of a list has the name `name`, in any
/// ASCII case.
pub open spec fn header_matches(entry: Annotated<Header>, name: Seq<char>) -> bool {
    match header_name(entry) {
        Some(found) => crate::text::ascii_folded(found) == crate::text::ascii_folded(name),
        None => false,
    }
}

/// The value of the first header of `headers[from..]` whose name is `name`,
/// in any ASCII case. It is `None` where there is no such header, and where
/// the value of that header is absent.
pub open spec fn header_from(headers: Seq<Annotated<Header>>, name: Seq<char>, from: int) -> Option<
    Seq<char>,
>
    decreases headers.len() - from,
{
    if 0 <= from < headers.len() {
        if header_matches(headers[from], name) {
            header_text(headers[from])
        } else {
            header_from(headers, name, from + 1)
        }
    } else {
        None
    }
}

impl Tags {
    /// The value of the first tag with the key `key`.
    pub fn get(&self, key: &str) -> (r: Option<&str>)
        ensures
            match r {
                Some(value) => tag_from(self.0.0@, key@, 0) == Some(value@),
                None => tag_from(self.0.0@, key@, 0) is None,
            },
    {
        let tags = &self.0.0;
        let n = tags.len();
        let mut i: usize = 0;
        while i < n
            invariant
                n == tags@.len(),
                tags@ == self.0.0@,
                i <= n,
                tag_from(tags@, key@, 0) == tag_from(tags@, key@, i as int),
            decreases n - i,
        {
            if let Some(tag) = tags[i].value() {
                if let Some(found) = tag.0.as_str() {
                    if str_eq(found, key) {
                        return tag.1.as_str();
                    }
                }
            }
            i += 1;
        }
        None
    }
}

impl Headers {
    /// The value of the first header with the name `name`, in any ASCII case.
    pub fn get_header(&self, name: &str) -> (r: Option<&str>)
        ensures
            match r {
                Some(value) => header_from(self.0.0@, name@, 0) == Some(value@),
                None => header_from(self.0.0@, name@, 0) is None,
            },
    {
        let headers = &self.0.0;
        let n = headers.len();
        let mut i: usize = 0;
        while i < n
            invariant
                n == headers@.len(),
                headers@ == self.0.0@,
                i <= n,
                header_from(headers@, name@, 0) == header_from(headers@, name@, i as int),
            decreases n - i,
        {
            if let Some(header) = headers[i].value() {
                if let Some(found) = header.0.as_str() {
                    if eq_ignore_ascii_case(found, name) {
                        return header.1.as_str();
                    }
                }
            }
            i += 1;
        }
        None
    }
}

/// The lookup of a header does not depend on the case of the ASCII letters of
/// the name that is asked for: two names that differ in nothing else find the
/// same value.
pub proof fn lemma_header_case_insensitive(
    headers: Seq<Annotated<Header>>,
    first: Seq<char>,
    second: Seq<char>,
    from: int,
)
    requires
        crate::text::ascii_folded(first) == crate::text::ascii_folded(second),
    ensures
        header_from(headers, first, from) == header_from(headers, second, from),
    decreases headers.len() - from,
{
    if 0 <= from < headers.len() {
        lemma_header_case_insensitive(headers, first, second, from + 1);
    }
}

} // verus!
