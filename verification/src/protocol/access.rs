//! What an event is asked for most often.

use crate::number::FiniteF64;
use crate::protocol::context::DefaultContext;
use crate::protocol::event::Event;
use crate::protocol::exception::Exception;
use crate::protocol::release::{parse_release_name, ParsedRelease};
use crate::text::split_once;
use crate::value::Value;
use vstd::prelude::*;

verus! {

/// The first key of a path, and the rest of the path after the period that
/// follows the key, where one follows.
pub open spec fn head_and_rest(path: Seq<char>) -> (Seq<char>, Option<Seq<char>>) {
    match crate::text::split_first(path, '.') {
        Some((head, rest)) => (head, Some(rest)),
        None => (path, None),
    }
}

/// The rest of a path is shorter than the path.
pub proof fn lemma_rest_shorter(path: Seq<char>)
    ensures
        head_and_rest(path).1 matches Some(rest) ==> rest.len() < path.len(),
{
    if exists|i: int| crate::text::first_at(path, '.', i) {
        let i = choose|i: int| crate::text::first_at(path, '.', i);
        assert(path.skip(i + 1).len() < path.len());
    }
}

/// The value that `value` holds under the path `rest`: the value itself where
/// no path is left, and else what the map that it must be holds under the
/// first key, searched with the rest of the path.
pub open spec fn descend(value: Value, rest: Option<Seq<char>>) -> Option<Value>
    decreases
            (match rest {
                Some(path) => path.len() + 1,
                None => 0,
            }),
{
    match rest {
        None => Some(value),
        Some(path) => {
            let (key, next) = head_and_rest(path);
            match value {
                Value::Object(object) => match object.lookup(key) {
                    Some(entry) => match entry.0 {
                        Some(inner) => {
                            proof {
                                lemma_rest_shorter(path);
                            }
                            descend(inner, next)
                        },
                        None => None,
                    },
                    None => None,
                },
                _ => None,
            }
        },
    }
}

/// The values of a list that are present, in the order of the list, as far as
/// the position `upto`.
pub open spec fn present_upto<T>(items: Seq<crate::annotated::Annotated<T>>, upto: int) -> Seq<T>
    decreases upto,
{
    if upto <= 0 {
        Seq::empty()
    } else {
        match items[upto - 1].0 {
            Some(value) => present_upto(items, upto - 1).push(value),
            None => present_upto(items, upto - 1),
        }
    }
}

fn split_path(path: &str) -> (r: (&str, Option<&str>))
    ensures
        r.0@ == head_and_rest(path@).0,
        crate::protocol::release::text_of(r.1) == head_and_rest(path@).1,
{
    match split_once(path, '.') {
        Some((head, rest)) => (head, Some(rest)),
        None => (path, None),
    }
}

impl Event {
    /// The value of the first tag with the key `key`.
    pub open spec fn tag_text(&self, key: Seq<char>) -> Option<Seq<char>> {
        match self.tags.0 {
            Some(tags) => crate::protocol::pairs::tag_from(tags.0.0@, key, 0),
            None => None,
        }
    }

    /// The value of the tag with the key `tag_key`. Where several tags have
    /// the key, the first counts.
    pub fn tag_value(&self, tag_key: &str) -> (r: Option<&str>)
        ensures
            crate::protocol::release::text_of(r) == self.tag_text(tag_key@),
    {
        match self.tags.value() {
            Some(tags) => tags.get(tag_key),
            None => None,
        }
    }

    /// Whether the installed modules hold the module `module_name`.
    pub fn has_module(&self, module_name: &str) -> (r: bool)
        ensures
            r == match self.modules.0 {
                Some(modules) => modules.lookup(module_name@) is Some,
                None => false,
            },
    {
        match self.modules.value() {
            Some(modules) => modules.contains_key(module_name),
            None => false,
        }
    }

    /// The name of the SDK, where the event gives one.
    pub open spec fn sdk_name_text(&self) -> Option<Seq<char>> {
        match self.client_sdk.0 {
            Some(sdk) => sdk.name.text(),
            None => None,
        }
    }

    /// The version of the SDK, where the event gives one.
    pub open spec fn sdk_version_text(&self) -> Option<Seq<char>> {
        match self.client_sdk.0 {
            Some(sdk) => sdk.version.text(),
            None => None,
        }
    }

    /// The name of the SDK that sent the event, and `unknown` where the event
    /// gives none.
    pub fn sdk_name(&self) -> (r: &str)
        ensures
            r@ == match self.sdk_name_text() {
                Some(name) => name,
                None => "unknown"@,
            },
    {
        if let Some(client_sdk) = self.client_sdk.value() {
            if let Some(name) = client_sdk.name.as_str() {
                return name;
            }
        }
        "unknown"
    }

    /// The version of the SDK that sent the event, and `unknown` where the
    /// event gives none.
    pub fn sdk_version(&self) -> (r: &str)
        ensures
            r@ == match self.sdk_version_text() {
                Some(version) => version,
                None => "unknown"@,
            },
    {
        if let Some(client_sdk) = self.client_sdk.value() {
            if let Some(version) = client_sdk.version.as_str() {
                return version;
            }
        }
        "unknown"
    }

    /// The value of the first header of the request with the name `name`, in
    /// any ASCII case.
    pub open spec fn header_text(&self, name: Seq<char>) -> Option<Seq<char>> {
        match self.request.0 {
            Some(request) => match request.headers.0 {
                Some(headers) => crate::protocol::pairs::header_from(headers.0.0@, name, 0),
                None => None,
            },
            None => None,
        }
    }

    /// The value of the first header of the request with the name `name`, in
    /// any ASCII case.
    pub fn header(&self, name: &str) -> (r: Option<&str>)
        ensures
            crate::protocol::release::text_of(r) == self.header_text(name@),
    {
        match self.request.value() {
            Some(request) => match request.headers.value() {
                Some(headers) => headers.get_header(name),
                None => None,
            },
            None => None,
        }
    }

    /// The user agent: the value of the header `user-agent` of the request.
    pub fn user_agent(&self) -> (r: Option<&str>)
        ensures
            crate::protocol::release::text_of(r) == self.header_text("user-agent"@),
    {
        self.header("user-agent")
    }

    /// The additional data under `path`: the keys of the path, joined by
    /// periods, lead from map to map.
    pub open spec fn extra_value(&self, path: Seq<char>) -> Option<Value> {
        let (first, rest) = head_and_rest(path);
        match self.extra.0 {
            Some(extra) => match extra.lookup(first) {
                Some(entry) => match entry.0 {
                    Some(top) => descend(top.0, rest),
                    None => None,
                },
                None => None,
            },
            None => None,
        }
    }

    /// The additional data under `path`. The keys of the path are joined by
    /// periods; a key that holds a period cannot be reached.
    pub fn extra_at(&self, path: &str) -> (r: Option<&Value>)
        ensures
            r == match self.extra_value(path@) {
                Some(value) => Some(&value),
                None => None,
            },
    {
        let (first, start) = split_path(path);
        let extra = match self.extra.value() {
            Some(extra) => extra,
            None => {
                return None;
            },
        };
        let entry = match extra.get(first) {
            Some(entry) => entry,
            None => {
                return None;
            },
        };
        let mut value: &Value = match entry.value() {
            Some(top) => &top.0,
            None => {
                return None;
            },
        };
        let mut rest = start;
        loop
            invariant
                descend(*value, crate::protocol::release::text_of(rest)) == self.extra_value(path@),
            decreases
                    (match rest {
                        Some(left) => left@.len() + 1,
                        None => 0,
                    }),
        {
            let left = match rest {
                Some(left) => left,
                None => {
                    return Some(value);
                },
            };
            proof {
                lemma_rest_shorter(left@);
            }
            let (key, next) = split_path(left);
            let object = match value {
                Value::Object(object) => object,
                _ => {
                    return None;
                },
            };
            let entry = match object.get(key) {
                Some(entry) => entry,
                None => {
                    return None;
                },
            };
            value = match entry.value() {
                Some(inner) => inner,
                None => {
                    return None;
                },
            };
            rest = next;
        }
    }

    /// The parts of the release name of the event, where the event has a
    /// release and the release parser takes its name.
    pub fn parse_release(&self) -> (r: Option<ParsedRelease<'_>>)
        ensures
            match self.release.text() {
                Some(raw) => match r {
                    Some(parsed) => crate::protocol::release::release_parts(raw) == Some(parsed@),
                    None => crate::protocol::release::release_parts(raw) is None,
                },
                None => r is None,
            },
    {
        match self.release.as_str() {
            Some(raw) => parse_release_name(raw),
            None => None,
        }
    }

    /// The measured value with the name `name`.
    pub open spec fn measured(&self, name: Seq<char>) -> Option<FiniteF64> {
        match self.measurements.0 {
            Some(measurements) => match measurements.0.lookup(name) {
                Some(entry) => match entry.0 {
                    Some(measurement) => measurement.value.0,
                    None => None,
                },
                None => None,
            },
            None => None,
        }
    }

    /// The measured value with the name `name`.
    pub fn measurement(&self, name: &str) -> (r: Option<FiniteF64>)
        ensures
            r == self.measured(name@),
    {
        let measurements = self.measurements.value()?;
        let entry = measurements.0.get(name)?;
        let measurement = entry.value()?;
        match measurement.value.value() {
            Some(value) => Some(*value),
            None => None,
        }
    }

    /// The measured value with the name `measurement` of the breakdown
    /// `breakdown`.
    pub open spec fn broken_down(&self, breakdown: Seq<char>, measurement: Seq<char>) -> Option<
        FiniteF64,
    > {
        match self.breakdowns.0 {
            Some(breakdowns) => match breakdowns.0.lookup(breakdown) {
                Some(group) => match group.0 {
                    Some(measurements) => match measurements.0.lookup(measurement) {
                        Some(entry) => match entry.0 {
                            Some(found) => found.value.0,
                            None => None,
                        },
                        None => None,
                    },
                    None => None,
                },
                None => None,
            },
            None => None,
        }
    }

    /// The measured value with the name `measurement` of the breakdown
    /// `breakdown`.
    pub fn breakdown(&self, breakdown: &str, measurement: &str) -> (r: Option<FiniteF64>)
        ensures
            r == self.broken_down(breakdown@, measurement@),
    {
        let breakdowns = self.breakdowns.value()?;
        let group = breakdowns.0.get(breakdown)?;
        let measurements = group.value()?;
        let entry = measurements.0.get(measurement)?;
        let found = entry.value()?;
        match found.value.value() {
            Some(value) => Some(*value),
            None => None,
        }
    }

    /// The context of the kind `C` that the event has under the key of that
    /// kind.
    pub open spec fn context_held<C: DefaultContext>(&self) -> Option<C> {
        match self.contexts.0 {
            Some(contexts) => contexts.of_kind::<C>(),
            None => None,
        }
    }

    /// The context of the kind `C`, where the event has one under the key of
    /// that kind.
    pub fn context<C: DefaultContext>(&self) -> (r: Option<&C>)
        ensures
            r == match self.context_held::<C>() {
                Some(c) => Some(&c),
                None => None,
            },
    {
        match self.contexts.value() {
            Some(contexts) => contexts.get::<C>(),
            None => None,
        }
    }

    /// The contexts of the event by key, in the order of insertion, where the
    /// event has contexts.
    pub open spec fn contexts_held(&self) -> Option<
        Seq<(String, crate::annotated::Annotated<crate::protocol::context::ContextInner>)>,
    > {
        match self.contexts.0 {
            Some(contexts) => Some(contexts.0@),
            None => None,
        }
    }

    /// The context of the kind `C`, where the event has one under the key of
    /// that kind, for change. Nothing but that context changes.
    pub fn context_mut<C: DefaultContext>(&mut self) -> (r: Option<&mut C>)
        ensures
            match r {
                Some(held) => {
                    &&& old(self).context_held::<C>() == Some(*held)
                    &&& final(self).context_held::<C>() == Some(*final(held))
                },
                None => {
                    &&& old(self).context_held::<C>() is None
                    &&& final(self).contexts_held() == old(self).contexts_held()
                },
            },
            *final(self) == (Event { contexts: final(self).contexts, ..*old(self) }),
            final(self).contexts.1 == old(self).contexts.1,
    {
        match &mut self.contexts.0 {
            Some(contexts) => contexts.get_mut::<C>(),
            None => None,
        }
    }

    /// The chained exceptions that are present, the oldest first, where the
    /// event has a list of exceptions.
    pub open spec fn exceptions_held(&self) -> Option<Seq<Exception>> {
        match self.exceptions.0 {
            Some(exceptions) => match exceptions.values.0 {
                Some(values) => Some(present_upto(values@, values@.len() as int)),
                None => None,
            },
            None => None,
        }
    }
}

} // verus!
