//! Lookup of scalars in an event by path.
//!
//! A path names a field of the event after the prefix `event.`. The fields
//! that are asked for most often are found by comparing the whole path with a
//! fixed table. What the table does not hold is tried against a fixed list of
//! prefixes, each for one open bag of the event: the prefix is taken off and
//! the rest of the path is looked up in the bag. The table comes first.

use crate::annotated::Annotated;
use crate::getter::{Getter, Val, ValView};
use crate::number::FiniteF64;
use crate::protocol::context::Context;
use crate::protocol::contexts::{
    AppContext, BrowserContext, DeviceContext, GpuContext, MonitorContext, OsContext,
    ProfileContext, ResponseContext, RuntimeContext, TraceContext,
};
use crate::protocol::event::Event;
use crate::protocol::event_id::EventId;
use crate::protocol::exception::Exception;
use crate::protocol::release::ParsedRelease;
use crate::protocol::types::{EventType, HexId, Level, SpanStatus, TransactionSource};
use crate::protocol::user::Geo;
use crate::text::{split_once, str_eq, strip_prefix, strip_suffix, Text};
use vstd::prelude::*;

verus! {

/// What a lookup in a table found: `None` where the table does not hold the
/// path, and else what is under the path.
pub open spec fn looked(r: Option<Option<Val<'_>>>) -> Option<Option<ValView>> {
    match r {
        Some(inner) => Some(crate::getter::found(inner)),
        None => None,
    }
}

/// A string as a scalar.
pub open spec fn string_val(text: Option<Seq<char>>) -> Option<ValView> {
    match text {
        Some(s) => Some(ValView::String(s)),
        None => None,
    }
}

/// The string of a field as a scalar.
pub open spec fn text_val<T: Text>(field: Annotated<T>) -> Option<ValView> {
    string_val(field.text())
}

/// The string of a field as a scalar, where the string is not empty.
pub open spec fn nonempty_val<T: Text>(field: Annotated<T>) -> Option<ValView> {
    match field.text() {
        Some(s) => if s.len() == 0 {
            None
        } else {
            Some(ValView::String(s))
        },
        None => None,
    }
}

pub open spec fn bool_val(field: Annotated<bool>) -> Option<ValView> {
    match field.0 {
        Some(v) => Some(ValView::Bool(v)),
        None => None,
    }
}

pub open spec fn u64_val(field: Annotated<u64>) -> Option<ValView> {
    match field.0 {
        Some(v) => Some(ValView::U64(v)),
        None => None,
    }
}

pub open spec fn f64_val(field: Annotated<FiniteF64>) -> Option<ValView> {
    match field.0 {
        Some(v) => Some(ValView::F64(v@)),
        None => None,
    }
}

pub open spec fn hex_val(field: Annotated<HexId>) -> Option<ValView> {
    match field.0 {
        Some(v) => Some(ValView::HexId(v.0)),
        None => None,
    }
}

pub open spec fn id_val(field: Annotated<EventId>) -> Option<ValView> {
    match field.0 {
        Some(v) => Some(ValView::HexId(v.0)),
        None => None,
    }
}

pub open spec fn level_val(field: Annotated<Level>) -> Option<ValView> {
    match field.0 {
        Some(v) => Some(ValView::String(v.text())),
        None => None,
    }
}

pub open spec fn source_val(field: Annotated<TransactionSource>) -> Option<ValView> {
    match field.0 {
        Some(v) => Some(ValView::String(v.text())),
        None => None,
    }
}

pub open spec fn status_val(field: Annotated<SpanStatus>) -> Option<ValView> {
    match field.0 {
        Some(v) => Some(ValView::String(v.text())),
        None => None,
    }
}

fn string_of(text: Option<&str>) -> (r: Option<Val<'_>>)
    ensures
        crate::getter::found(r) == string_val(crate::protocol::release::text_of(text)),
{
    match text {
        Some(s) => Some(Val::String(s)),
        None => None,
    }
}

fn text_of<T: Text>(field: &Annotated<T>) -> (r: Option<Val<'_>>)
    ensures
        crate::getter::found(r) == text_val(*field),
{
    match field.as_str() {
        Some(s) => Some(Val::String(s)),
        None => None,
    }
}

/// The string of a field, where the field is present and the string is not
/// empty.
pub fn or_none<T: Text>(string: &Annotated<T>) -> (r: Option<&str>)
    ensures
        string_val(crate::protocol::release::text_of(r)) == nonempty_val(*string),
{
    match string.as_str() {
        None => None,
        Some(other) => {
            if str_eq(other, "") {
                proof {
                    reveal_strlit("");
                }
                None
            } else {
                proof {
                    reveal_strlit("");
                    assert(other@.len() == 0 ==> other@ =~= ""@);
                }
                Some(other)
            }
        },
    }
}

fn nonempty_of<T: Text>(field: &Annotated<T>) -> (r: Option<Val<'_>>)
    ensures
        crate::getter::found(r) == nonempty_val(*field),
{
    string_of(or_none(field))
}

fn bool_of(field: &Annotated<bool>) -> (r: Option<Val<'_>>)
    ensures
        crate::getter::found(r) == bool_val(*field),
{
    match field.value() {
        Some(v) => Some(Val::Bool(*v)),
        None => None,
    }
}

fn u64_of(field: &Annotated<u64>) -> (r: Option<Val<'_>>)
    ensures
        crate::getter::found(r) == u64_val(*field),
{
    match field.value() {
        Some(v) => Some(Val::U64(*v)),
        None => None,
    }
}

fn f64_of(field: &Annotated<FiniteF64>) -> (r: Option<Val<'_>>)
    ensures
        crate::getter::found(r) == f64_val(*field),
{
    match field.value() {
        Some(v) => Some(Val::F64(*v)),
        None => None,
    }
}

fn hex_of(field: &Annotated<HexId>) -> (r: Option<Val<'_>>)
    ensures
        crate::getter::found(r) == hex_val(*field),
{
    match field.value() {
        Some(v) => Some(Val::HexId(*v)),
        None => None,
    }
}

fn id_of(field: &Annotated<EventId>) -> (r: Option<Val<'_>>)
    ensures
        crate::getter::found(r) == id_val(*field),
{
    match field.value() {
        Some(v) => Some(Val::HexId(HexId(v.0))),
        None => None,
    }
}

fn level_of(field: &Annotated<Level>) -> (r: Option<Val<'_>>)
    ensures
        crate::getter::found(r) == level_val(*field),
{
    match field.value() {
        Some(v) => Some(Val::String(v.name())),
        None => None,
    }
}

fn source_of(field: &Annotated<TransactionSource>) -> (r: Option<Val<'_>>)
    ensures
        crate::getter::found(r) == source_val(*field),
{
    match field.value() {
        Some(v) => Some(Val::String(v.as_str())),
        None => None,
    }
}

fn status_of(field: &Annotated<SpanStatus>) -> (r: Option<Val<'_>>)
    ensures
        crate::getter::found(r) == status_val(*field),
{
    match field.value() {
        Some(v) => Some(Val::String(v.as_str())),
        None => None,
    }
}

/// The scalar of the release name whose parts are `parts` that the path
/// `part` names: `build` names the build hash, `package` the package and
/// `version.short` the short version.
pub open spec fn release_part(
    parts: (Option<Seq<char>>, Option<Seq<char>>, Option<Seq<char>>),
    part: Seq<char>,
) -> Option<ValView> {
    if part == "build"@ {
        string_val(parts.2)
    } else if part == "package"@ {
        string_val(parts.0)
    } else if part == "version.short"@ {
        string_val(parts.1)
    } else {
        None
    }
}

/// The scalar of a parsed release name that the path `part` names.
pub fn release_value<'a>(parsed: &ParsedRelease<'a>, part: &str) -> (r: Option<Val<'a>>)
    ensures
        crate::getter::found(r) == release_part(parsed@, part@),
{
    if str_eq(part, "build") {
        string_of(parsed.build_hash)
    } else if str_eq(part, "package") {
        string_of(parsed.package)
    } else if str_eq(part, "version.short") {
        string_of(parsed.version_short)
    } else {
        None
    }
}

impl Event {
    /// The location of the user, where the event has a user with a location.
    pub open spec fn geo_held(&self) -> Option<Geo> {
        match self.user.0 {
            Some(user) => user.geo.0,
            None => None,
        }
    }

    fn geo(&self) -> (r: Option<&Geo>)
        ensures
            r == match self.geo_held() {
                Some(geo) => Some(&geo),
                None => None,
            },
    {
        match self.user.value() {
            Some(user) => user.geo.value(),
            None => None,
        }
    }

    /// The duration of the transaction: the time from its start to its end.
    /// It is defined where the event is a transaction, has both points in
    /// time, and does not end before it starts.
    pub open spec fn duration(&self) -> Option<crate::protocol::types::Millis> {
        match (self.start_timestamp.0, self.timestamp.0, self.ty.0) {
            (Some(start), Some(end), Some(EventType::Transaction)) => end.spec_millis_since(start),
            _ => None,
        }
    }

    /// The duration of the transaction as a scalar.
    pub open spec fn duration_val(&self) -> Option<ValView> {
        match self.duration() {
            Some(span) => Some(ValView::Millis(span)),
            None => None,
        }
    }

    fn duration_of(&self) -> (r: Option<Val<'_>>)
        ensures
            crate::getter::found(r) == self.duration_val(),
    {
        let start = match self.start_timestamp.value() {
            Some(start) => *start,
            None => {
                return None;
            },
        };
        let end = match self.timestamp.value() {
            Some(end) => *end,
            None => {
                return None;
            },
        };
        match self.ty.value() {
            Some(EventType::Transaction) => match end.millis_since(start) {
                Some(span) => Some(Val::Millis(span)),
                None => None,
            },
            _ => None,
        }
    }

    /// The scalar that the monitor context holds under `key`.
    pub open spec fn monitor_val(&self, key: Seq<char>) -> Option<ValView> {
        match self.context_held::<MonitorContext>() {
            Some(monitor) => match monitor.0.lookup(key) {
                Some(entry) => match entry.0 {
                    Some(value) => Val::of_value(value),
                    None => None,
                },
                None => None,
            },
            None => None,
        }
    }

    fn monitor_of(&self, key: &str) -> (r: Option<Val<'_>>)
        ensures
            crate::getter::found(r) == self.monitor_val(key@),
    {
        let monitor = self.context::<MonitorContext>()?;
        let entry = monitor.0.get(key)?;
        let value = entry.value()?;
        Val::from_value(value)
    }

    /// The scalar that the context under the key `unreal` holds under
    /// `crash_type`, where that context is of no kind that the schema knows.
    pub open spec fn crash_type_val(&self) -> Option<ValView> {
        match self.contexts.0 {
            Some(contexts) => match contexts.at("unreal"@) {
                Some(Context::Other(context)) => match context.lookup("crash_type"@) {
                    Some(entry) => match entry.0 {
                        Some(value) => Val::of_value(value),
                        None => None,
                    },
                    None => None,
                },
                _ => None,
            },
            None => None,
        }
    }

    fn crash_type_of(&self) -> (r: Option<Val<'_>>)
        ensures
            crate::getter::found(r) == self.crash_type_val(),
    {
        let contexts = self.contexts.value()?;
        match contexts.get_key("unreal") {
            Some(Context::Other(context)) => {
                let entry = context.get("crash_type")?;
                let value = entry.value()?;
                Val::from_value(value)
            },
            _ => None,
        }
    }

    /// What a lookup finds under `key` among the fields of the event itself
    /// and of its log message, transaction and SDK. It is `None` where `key`
    /// is none of their paths.
    pub open spec fn core_at(&self, key: Seq<char>) -> Option<Option<ValView>> {
        if key == "level"@ {
            Some(
                level_val(self.level),
            )
        } else if key == "release"@ {
            Some(
                text_val(self.release),
            )
        } else if key == "dist"@ {
            Some(
                text_val(self.dist),
            )
        } else if key == "environment"@ {
            Some(
                text_val(self.environment),
            )
        } else if key == "transaction"@ {
            Some(
                text_val(self.transaction),
            )
        } else if key == "logger"@ {
            Some(
                text_val(self.logger),
            )
        } else if key == "platform"@ {
            Some(
                text_val(self.platform),
            )
        } else if key == "logentry.formatted"@ {
            Some(
                match self.logentry.0 {
                    Some(held) => text_val(held.formatted),
                    None => None,
                },
            )
        } else if key == "logentry.message"@ {
            Some(
                match self.logentry.0 {
                    Some(held) => text_val(held.message),
                    None => None,
                },
            )
        } else if key == "transaction.source"@ {
            Some(
                match self.transaction_info.0 {
                    Some(held) => source_val(held.source),
                    None => None,
                },
            )
        } else if key == "sdk.name"@ {
            Some(
                match self.client_sdk.0 {
                    Some(held) => text_val(held.name),
                    None => None,
                },
            )
        } else if key == "sdk.version"@ {
            Some(
                match self.client_sdk.0 {
                    Some(held) => text_val(held.version),
                    None => None,
                },
            )
        } else if key == "duration"@ {
            Some(
                self.duration_val(),
            )
        } else {
            None
        }
    }

    /// Looks `key` up among the fields of the event itself and of its log
    /// message, transaction and SDK.
    fn core_value(&self, key: &str) -> (r: Option<Option<Val<'_>>>)
        ensures
            looked(r) == self.core_at(key@),
    {
        if str_eq(key, "level") {
            Some(
                level_of(&self.level),
            )
        } else if str_eq(key, "release") {
            Some(
                text_of(&self.release),
            )
        } else if str_eq(key, "dist") {
            Some(
                text_of(&self.dist),
            )
        } else if str_eq(key, "environment") {
            Some(
                text_of(&self.environment),
            )
        } else if str_eq(key, "transaction") {
            Some(
                text_of(&self.transaction),
            )
        } else if str_eq(key, "logger") {
            Some(
                text_of(&self.logger),
            )
        } else if str_eq(key, "platform") {
            Some(
                text_of(&self.platform),
            )
        } else if str_eq(key, "logentry.formatted") {
            Some(
                match self.logentry.value() {
                    Some(held) => text_of(&held.formatted),
                    None => None,
                },
            )
        } else if str_eq(key, "logentry.message") {
            Some(
                match self.logentry.value() {
                    Some(held) => text_of(&held.message),
                    None => None,
                },
            )
        } else if str_eq(key, "transaction.source") {
            Some(
                match self.transaction_info.value() {
                    Some(held) => source_of(&held.source),
                    None => None,
                },
            )
        } else if str_eq(key, "sdk.name") {
            Some(
                match self.client_sdk.value() {
                    Some(held) => text_of(&held.name),
                    None => None,
                },
            )
        } else if str_eq(key, "sdk.version") {
            Some(
                match self.client_sdk.value() {
                    Some(held) => text_of(&held.version),
                    None => None,
                },
            )
        } else if str_eq(key, "duration") {
            Some(
                self.duration_of(),
            )
        } else {
            None
        }
    }

    /// What a lookup finds under `key` among the fields of the user and of the
    /// request. It is `None` where `key` is none of their paths.
    pub open spec fn person_at(&self, key: Seq<char>) -> Option<Option<ValView>> {
        if key == "user.email"@ {
            Some(
                match self.user.0 {
                    Some(held) => nonempty_val(held.email),
                    None => None,
                },
            )
        } else if key == "user.id"@ {
            Some(
                match self.user.0 {
                    Some(held) => nonempty_val(held.id),
                    None => None,
                },
            )
        } else if key == "user.ip_address"@ {
            Some(
                match self.user.0 {
                    Some(held) => text_val(held.ip_address),
                    None => None,
                },
            )
        } else if key == "user.name"@ {
            Some(
                match self.user.0 {
                    Some(held) => text_val(held.name),
                    None => None,
                },
            )
        } else if key == "user.segment"@ {
            Some(
                match self.user.0 {
                    Some(held) => nonempty_val(held.segment),
                    None => None,
                },
            )
        } else if key == "user.geo.city"@ {
            Some(
                match self.geo_held() {
                    Some(held) => text_val(held.city),
                    None => None,
                },
            )
        } else if key == "user.geo.country_code"@ {
            Some(
                match self.geo_held() {
                    Some(held) => text_val(held.country_code),
                    None => None,
                },
            )
        } else if key == "user.geo.region"@ {
            Some(
                match self.geo_held() {
                    Some(held) => text_val(held.region),
                    None => None,
                },
            )
        } else if key == "user.geo.subdivision"@ {
            Some(
                match self.geo_held() {
                    Some(held) => text_val(held.subdivision),
                    None => None,
                },
            )
        } else if key == "request.method"@ {
            Some(
                match self.request.0 {
                    Some(held) => text_val(held.method),
                    None => None,
                },
            )
        } else if key == "request.url"@ {
            Some(
                match self.request.0 {
                    Some(held) => text_val(held.url),
                    None => None,
                },
            )
        } else if key == "sentry_user"@ {
            Some(
                match self.user.0 {
                    Some(held) => text_val(held.sentry_user),
                    None => None,
                },
            )
        } else {
            None
        }
    }

    /// Looks `key` up among the fields of the user and of the request.
    fn person_value(&self, key: &str) -> (r: Option<Option<Val<'_>>>)
        ensures
            looked(r) == self.person_at(key@),
    {
        if str_eq(key, "user.email") {
            Some(
                match self.user.value() {
                    Some(held) => nonempty_of(&held.email),
                    None => None,
                },
            )
        } else if str_eq(key, "user.id") {
            Some(
                match self.user.value() {
                    Some(held) => nonempty_of(&held.id),
                    None => None,
                },
            )
        } else if str_eq(key, "user.ip_address") {
            Some(
                match self.user.value() {
                    Some(held) => text_of(&held.ip_address),
                    None => None,
                },
            )
        } else if str_eq(key, "user.name") {
            Some(
                match self.user.value() {
                    Some(held) => text_of(&held.name),
                    None => None,
                },
            )
        } else if str_eq(key, "user.segment") {
            Some(
                match self.user.value() {
                    Some(held) => nonempty_of(&held.segment),
                    None => None,
                },
            )
        } else if str_eq(key, "user.geo.city") {
            Some(
                match self.geo() {
                    Some(held) => text_of(&held.city),
                    None => None,
                },
            )
        } else if str_eq(key, "user.geo.country_code") {
            Some(
                match self.geo() {
                    Some(held) => text_of(&held.country_code),
                    None => None,
                },
            )
        } else if str_eq(key, "user.geo.region") {
            Some(
                match self.geo() {
                    Some(held) => text_of(&held.region),
                    None => None,
                },
            )
        } else if str_eq(key, "user.geo.subdivision") {
            Some(
                match self.geo() {
                    Some(held) => text_of(&held.subdivision),
                    None => None,
                },
            )
        } else if str_eq(key, "request.method") {
            Some(
                match self.request.value() {
                    Some(held) => text_of(&held.method),
                    None => None,
                },
            )
        } else if str_eq(key, "request.url") {
            Some(
                match self.request.value() {
                    Some(held) => text_of(&held.url),
                    None => None,
                },
            )
        } else if str_eq(key, "sentry_user") {
            Some(
                match self.user.value() {
                    Some(held) => text_of(&held.sentry_user),
                    None => None,
                },
            )
        } else {
            None
        }
    }

    /// What a lookup finds under `key` among the fields of the device context.
    /// It is `None` where `key` is none of their paths.
    pub open spec fn device_at(&self, key: Seq<char>) -> Option<Option<ValView>> {
        if key == "contexts.device.arch"@ {
            Some(
                match self.context_held::<DeviceContext>() {
                    Some(held) => text_val(held.arch),
                    None => None,
                },
            )
        } else if key == "contexts.device.battery_level"@ {
            Some(
                match self.context_held::<DeviceContext>() {
                    Some(held) => f64_val(held.battery_level),
                    None => None,
                },
            )
        } else if key == "contexts.device.brand"@ {
            Some(
                match self.context_held::<DeviceContext>() {
                    Some(held) => text_val(held.brand),
                    None => None,
                },
            )
        } else if key == "contexts.device.charging"@ {
            Some(
                match self.context_held::<DeviceContext>() {
                    Some(held) => bool_val(held.charging),
                    None => None,
                },
            )
        } else if key == "contexts.device.family"@ {
            Some(
                match self.context_held::<DeviceContext>() {
                    Some(held) => text_val(held.family),
                    None => None,
                },
            )
        } else if key == "contexts.device.model"@ {
            Some(
                match self.context_held::<DeviceContext>() {
                    Some(held) => text_val(held.model),
                    None => None,
                },
            )
        } else if key == "contexts.device.locale"@ {
            Some(
                match self.context_held::<DeviceContext>() {
                    Some(held) => text_val(held.locale),
                    None => None,
                },
            )
        } else if key == "contexts.device.online"@ {
            Some(
                match self.context_held::<DeviceContext>() {
                    Some(held) => bool_val(held.online),
                    None => None,
                },
            )
        } else if key == "contexts.device.orientation"@ {
            Some(
                match self.context_held::<DeviceContext>() {
                    Some(held) => text_val(held.orientation),
                    None => None,
                },
            )
        } else if key == "contexts.device.name"@ {
            Some(
                match self.context_held::<DeviceContext>() {
                    Some(held) => text_val(held.name),
                    None => None,
                },
            )
        } else if key == "contexts.device.screen_density"@ {
            Some(
                match self.context_held::<DeviceContext>() {
                    Some(held) => f64_val(held.screen_density),
                    None => None,
                },
            )
        } else if key == "contexts.device.screen_dpi"@ {
            Some(
                match self.context_held::<DeviceContext>() {
                    Some(held) => u64_val(held.screen_dpi),
                    None => None,
                },
            )
        } else if key == "contexts.device.screen_width_pixels"@ {
            Some(
                match self.context_held::<DeviceContext>() {
                    Some(held) => u64_val(held.screen_width_pixels),
                    None => None,
                },
            )
        } else if key == "contexts.device.screen_height_pixels"@ {
            Some(
                match self.context_held::<DeviceContext>() {
                    Some(held) => u64_val(held.screen_height_pixels),
                    None => None,
                },
            )
        } else if key == "contexts.device.simulator"@ {
            Some(
                match self.context_held::<DeviceContext>() {
                    Some(held) => bool_val(held.simulator),
                    None => None,
                },
            )
        } else if key == "contexts.device.uuid"@ {
            Some(
                match self.context_held::<DeviceContext>() {
                    Some(held) => hex_val(held.uuid),
                    None => None,
                },
            )
        } else {
            None
        }
    }

    /// Looks `key` up among the fields of the device context.
    fn device_value(&self, key: &str) -> (r: Option<Option<Val<'_>>>)
        ensures
            looked(r) == self.device_at(key@),
    {
        if str_eq(key, "contexts.device.arch") {
            Some(
                match self.context::<DeviceContext>() {
                    Some(held) => text_of(&held.arch),
                    None => None,
                },
            )
        } else if str_eq(key, "contexts.device.battery_level") {
            Some(
                match self.context::<DeviceContext>() {
                    Some(held) => f64_of(&held.battery_level),
                    None => None,
                },
            )
        } else if str_eq(key, "contexts.device.brand") {
            Some(
                match self.context::<DeviceContext>() {
                    Some(held) => text_of(&held.brand),
                    None => None,
                },
            )
        } else if str_eq(key, "contexts.device.charging") {
            Some(
                match self.context::<DeviceContext>() {
                    Some(held) => bool_of(&held.charging),
                    None => None,
                },
            )
        } else if str_eq(key, "contexts.device.family") {
            Some(
                match self.context::<DeviceContext>() {
                    Some(held) => text_of(&held.family),
                    None => None,
                },
            )
        } else if str_eq(key, "contexts.device.model") {
            Some(
                match self.context::<DeviceContext>() {
                    Some(held) => text_of(&held.model),
                    None => None,
                },
            )
        } else if str_eq(key, "contexts.device.locale") {
            Some(
                match self.context::<DeviceContext>() {
                    Some(held) => text_of(&held.locale),
                    None => None,
                },
            )
        } else if str_eq(key, "contexts.device.online") {
            Some(
                match self.context::<DeviceContext>() {
                    Some(held) => bool_of(&held.online),
                    None => None,
                },
            )
        } else if str_eq(key, "contexts.device.orientation") {
            Some(
                match self.context::<DeviceContext>() {
                    Some(held) => text_of(&held.orientation),
                    None => None,
                },
            )
        } else if str_eq(key, "contexts.device.name") {
            Some(
                match self.context::<DeviceContext>() {
                    Some(held) => text_of(&held.name),
                    None => None,
                },
            )
        } else if str_eq(key, "contexts.device.screen_density") {
            Some(
                match self.context::<DeviceContext>() {
                    Some(held) => f64_of(&held.screen_density),
                    None => None,
                },
            )
        } else if str_eq(key, "contexts.device.screen_dpi") {
            Some(
                match self.context::<DeviceContext>() {
                    Some(held) => u64_of(&held.screen_dpi),
                    None => None,
                },
            )
        } else if str_eq(key, "contexts.device.screen_width_pixels") {
            Some(
                match self.context::<DeviceContext>() {
                    Some(held) => u64_of(&held.screen_width_pixels),
                    None => None,
                },
            )
        } else if str_eq(key, "contexts.device.screen_height_pixels") {
            Some(
                match self.context::<DeviceContext>() {
                    Some(held) => u64_of(&held.screen_height_pixels),
                    None => None,
                },
            )
        } else if str_eq(key, "contexts.device.simulator") {
            Some(
                match self.context::<DeviceContext>() {
                    Some(held) => bool_of(&held.simulator),
                    None => None,
                },
            )
        } else if str_eq(key, "contexts.device.uuid") {
            Some(
                match self.context::<DeviceContext>() {
                    Some(held) => hex_of(&held.uuid),
                    None => None,
                },
            )
        } else {
            None
        }
    }

    /// What a lookup finds under `key` among the fields of the other contexts.
    /// It is `None` where `key` is none of their paths.
    pub open spec fn context_at(&self, key: Seq<char>) -> Option<Option<ValView>> {
        if key == "contexts.app.in_foreground"@ {
            Some(
                match self.context_held::<AppContext>() {
                    Some(held) => bool_val(held.in_foreground),
                    None => None,
                },
            )
        } else if key == "contexts.app.device_app_hash"@ {
            Some(
                match self.context_held::<AppContext>() {
                    Some(held) => text_val(held.device_app_hash),
                    None => None,
                },
            )
        } else if key == "contexts.gpu.vendor_name"@ {
            Some(
                match self.context_held::<GpuContext>() {
                    Some(held) => text_val(held.vendor_name),
                    None => None,
                },
            )
        } else if key == "contexts.gpu.name"@ {
            Some(
                match self.context_held::<GpuContext>() {
                    Some(held) => text_val(held.name),
                    None => None,
                },
            )
        } else if key == "contexts.monitor.id"@ {
            Some(
                self.monitor_val("id"@),
            )
        } else if key == "contexts.monitor.slug"@ {
            Some(
                self.monitor_val("slug"@),
            )
        } else if key == "contexts.os"@ {
            Some(
                match self.context_held::<OsContext>() {
                    Some(held) => text_val(held.os),
                    None => None,
                },
            )
        } else if key == "contexts.os.build"@ {
            Some(
                match self.context_held::<OsContext>() {
                    Some(held) => text_val(held.build),
                    None => None,
                },
            )
        } else if key == "contexts.os.kernel_version"@ {
            Some(
                match self.context_held::<OsContext>() {
                    Some(held) => text_val(held.kernel_version),
                    None => None,
                },
            )
        } else if key == "contexts.os.name"@ {
            Some(
                match self.context_held::<OsContext>() {
                    Some(held) => text_val(held.name),
                    None => None,
                },
            )
        } else if key == "contexts.os.version"@ {
            Some(
                match self.context_held::<OsContext>() {
                    Some(held) => text_val(held.version),
                    None => None,
                },
            )
        } else if key == "contexts.os.rooted"@ {
            Some(
                match self.context_held::<OsContext>() {
                    Some(held) => bool_val(held.rooted),
                    None => None,
                },
            )
        } else if key == "contexts.browser"@ {
            Some(
                match self.context_held::<BrowserContext>() {
                    Some(held) => text_val(held.browser),
                    None => None,
                },
            )
        } else if key == "contexts.browser.name"@ {
            Some(
                match self.context_held::<BrowserContext>() {
                    Some(held) => text_val(held.name),
                    None => None,
                },
            )
        } else if key == "contexts.browser.version"@ {
            Some(
                match self.context_held::<BrowserContext>() {
                    Some(held) => text_val(held.version),
                    None => None,
                },
            )
        } else if key == "contexts.profile.profile_id"@ {
            Some(
                match self.context_held::<ProfileContext>() {
                    Some(held) => id_val(held.profile_id),
                    None => None,
                },
            )
        } else if key == "contexts.trace.status"@ {
            Some(
                match self.context_held::<TraceContext>() {
                    Some(held) => status_val(held.status),
                    None => None,
                },
            )
        } else if key == "contexts.trace.op"@ {
            Some(
                match self.context_held::<TraceContext>() {
                    Some(held) => text_val(held.op),
                    None => None,
                },
            )
        } else if key == "contexts.response.status_code"@ {
            Some(
                match self.context_held::<ResponseContext>() {
                    Some(held) => u64_val(held.status_code),
                    None => None,
                },
            )
        } else if key == "contexts.unreal.crash_type"@ {
            Some(
                self.crash_type_val(),
            )
        } else if key == "contexts.runtime"@ {
            Some(
                match self.context_held::<RuntimeContext>() {
                    Some(held) => text_val(held.runtime),
                    None => None,
                },
            )
        } else if key == "contexts.runtime.name"@ {
            Some(
                match self.context_held::<RuntimeContext>() {
                    Some(held) => text_val(held.name),
                    None => None,
                },
            )
        } else {
            None
        }
    }

    /// Looks `key` up among the fields of the other contexts.
    fn context_value(&self, key: &str) -> (r: Option<Option<Val<'_>>>)
        ensures
            looked(r) == self.context_at(key@),
    {
        if str_eq(key, "contexts.app.in_foreground") {
            Some(
                match self.context::<AppContext>() {
                    Some(held) => bool_of(&held.in_foreground),
                    None => None,
                },
            )
        } else if str_eq(key, "contexts.app.device_app_hash") {
            Some(
                match self.context::<AppContext>() {
                    Some(held) => text_of(&held.device_app_hash),
                    None => None,
                },
            )
        } else if str_eq(key, "contexts.gpu.vendor_name") {
            Some(
                match self.context::<GpuContext>() {
                    Some(held) => text_of(&held.vendor_name),
                    None => None,
                },
            )
        } else if str_eq(key, "contexts.gpu.name") {
            Some(
                match self.context::<GpuContext>() {
                    Some(held) => text_of(&held.name),
                    None => None,
                },
            )
        } else if str_eq(key, "contexts.monitor.id") {
            Some(
                self.monitor_of("id"),
            )
        } else if str_eq(key, "contexts.monitor.slug") {
            Some(
                self.monitor_of("slug"),
            )
        } else if str_eq(key, "contexts.os") {
            Some(
                match self.context::<OsContext>() {
                    Some(held) => text_of(&held.os),
                    None => None,
                },
            )
        } else if str_eq(key, "contexts.os.build") {
            Some(
                match self.context::<OsContext>() {
                    Some(held) => text_of(&held.build),
                    None => None,
                },
            )
        } else if str_eq(key, "contexts.os.kernel_version") {
            Some(
                match self.context::<OsContext>() {
                    Some(held) => text_of(&held.kernel_version),
                    None => None,
                },
            )
        } else if str_eq(key, "contexts.os.name") {
            Some(
                match self.context::<OsContext>() {
                    Some(held) => text_of(&held.name),
                    None => None,
                },
            )
        } else if str_eq(key, "contexts.os.version") {
            Some(
                match self.context::<OsContext>() {
                    Some(held) => text_of(&held.version),
                    None => None,
                },
            )
        } else if str_eq(key, "contexts.os.rooted") {
            Some(
                match self.context::<OsContext>() {
                    Some(held) => bool_of(&held.rooted),
                    None => None,
                },
            )
        } else if str_eq(key, "contexts.browser") {
            Some(
                match self.context::<BrowserContext>() {
                    Some(held) => text_of(&held.browser),
                    None => None,
                },
            )
        } else if str_eq(key, "contexts.browser.name") {
            Some(
                match self.context::<BrowserContext>() {
                    Some(held) => text_of(&held.name),
                    None => None,
                },
            )
        } else if str_eq(key, "contexts.browser.version") {
            Some(
                match self.context::<BrowserContext>() {
                    Some(held) => text_of(&held.version),
                    None => None,
                },
            )
        } else if str_eq(key, "contexts.profile.profile_id") {
            Some(
                match self.context::<ProfileContext>() {
                    Some(held) => id_of(&held.profile_id),
                    None => None,
                },
            )
        } else if str_eq(key, "contexts.trace.status") {
            Some(
                match self.context::<TraceContext>() {
                    Some(held) => status_of(&held.status),
                    None => None,
                },
            )
        } else if str_eq(key, "contexts.trace.op") {
            Some(
                match self.context::<TraceContext>() {
                    Some(held) => text_of(&held.op),
                    None => None,
                },
            )
        } else if str_eq(key, "contexts.response.status_code") {
            Some(
                match self.context::<ResponseContext>() {
                    Some(held) => u64_of(&held.status_code),
                    None => None,
                },
            )
        } else if str_eq(key, "contexts.unreal.crash_type") {
            Some(
                self.crash_type_of(),
            )
        } else if str_eq(key, "contexts.runtime") {
            Some(
                match self.context::<RuntimeContext>() {
                    Some(held) => text_of(&held.runtime),
                    None => None,
                },
            )
        } else if str_eq(key, "contexts.runtime.name") {
            Some(
                match self.context::<RuntimeContext>() {
                    Some(held) => text_of(&held.name),
                    None => None,
                },
            )
        } else {
            None
        }
    }

    /// What the table of fixed paths holds under `key`: `None` where `key` is
    /// none of the fixed paths.
    pub open spec fn exact_at(&self, key: Seq<char>) -> Option<Option<ValView>> {
        match self.core_at(key) {
            Some(v) => Some(v),
            None => match self.person_at(key) {
                Some(v) => Some(v),
                None => match self.device_at(key) {
                    Some(v) => Some(v),
                    None => self.context_at(key),
                },
            },
        }
    }

    fn exact_value(&self, key: &str) -> (r: Option<Option<Val<'_>>>)
        ensures
            looked(r) == self.exact_at(key@),
    {
        if let Some(v) = self.core_value(key) {
            return Some(v);
        }
        if let Some(v) = self.person_value(key) {
            return Some(v);
        }
        if let Some(v) = self.device_value(key) {
            return Some(v);
        }
        self.context_value(key)
    }

    /// The scalar of the release name of the event that the path `part`
    /// names.
    pub open spec fn release_at(&self, part: Seq<char>) -> Option<ValView> {
        match self.release.text() {
            Some(raw) => match crate::protocol::release::release_parts(raw) {
                Some(parts) => release_part(parts, part),
                None => None,
            },
            None => None,
        }
    }

    /// The measured value that the path `rest` names: the name of the value,
    /// followed by `.value`.
    pub open spec fn measurement_at(&self, rest: Seq<char>) -> Option<ValView> {
        match crate::text::before_suffix(rest, ".value"@) {
            Some(name) => match self.measured(name) {
                Some(v) => Some(ValView::F64(v@)),
                None => None,
            },
            None => None,
        }
    }

    /// The measured value that the path `rest` names: the name of the
    /// breakdown, a period, and the name of the value.
    pub open spec fn breakdown_at(&self, rest: Seq<char>) -> Option<ValView> {
        match crate::text::split_first(rest, '.') {
            Some((breakdown, measurement)) => match self.broken_down(breakdown, measurement) {
                Some(v) => Some(ValView::F64(v@)),
                None => None,
            },
            None => None,
        }
    }

    /// The scalar of the additional data under the path `rest`.
    pub open spec fn extra_val(&self, rest: Seq<char>) -> Option<ValView> {
        match self.extra_value(rest) {
            Some(value) => Val::of_value(value),
            None => None,
        }
    }

    /// What the open bags of the event hold under `key`. The prefixes are
    /// tried in a fixed order, and the first that `key` starts with decides.
    pub open spec fn dynamic_at(&self, key: Seq<char>) -> Option<ValView> {
        if let Some(rest) = crate::text::after_prefix(key, "release."@) {
            self.release_at(rest)
        } else if let Some(rest) = crate::text::after_prefix(key, "measurements."@) {
            self.measurement_at(rest)
        } else if let Some(rest) = crate::text::after_prefix(key, "breakdowns."@) {
            self.breakdown_at(rest)
        } else if let Some(rest) = crate::text::after_prefix(key, "extra."@) {
            self.extra_val(rest)
        } else if let Some(rest) = crate::text::after_prefix(key, "tags."@) {
            string_val(self.tag_text(rest))
        } else if let Some(rest) = crate::text::after_prefix(key, "request.headers."@) {
            string_val(self.header_text(rest))
        } else {
            None
        }
    }

    fn dynamic_value(&self, key: &str) -> (r: Option<Val<'_>>)
        ensures
            crate::getter::found(r) == self.dynamic_at(key@),
    {
        if let Some(rest) = strip_prefix(key, "release.") {
            let parsed = self.parse_release()?;
            release_value(&parsed, rest)
        } else if let Some(rest) = strip_prefix(key, "measurements.") {
            let name = strip_suffix(rest, ".value")?;
            match self.measurement(name) {
                Some(v) => Some(Val::F64(v)),
                None => None,
            }
        } else if let Some(rest) = strip_prefix(key, "breakdowns.") {
            let (breakdown, measurement) = split_once(rest, '.')?;
            match self.breakdown(breakdown, measurement) {
                Some(v) => Some(Val::F64(v)),
                None => None,
            }
        } else if let Some(rest) = strip_prefix(key, "extra.") {
            let value = self.extra_at(rest)?;
            Val::from_value(value)
        } else if let Some(rest) = strip_prefix(key, "tags.") {
            string_of(self.tag_value(rest))
        } else if let Some(rest) = strip_prefix(key, "request.headers.") {
            string_of(self.header(rest))
        } else {
            None
        }
    }

    /// What is under `key`, a path without the prefix `event.`: what the table
    /// of fixed paths holds where it holds the path, and else what the open
    /// bags hold.
    pub open spec fn field_at(&self, key: Seq<char>) -> Option<ValView> {
        match self.exact_at(key) {
            Some(v) => v,
            None => self.dynamic_at(key),
        }
    }
}

impl Getter for Event {
    type Item = Exception;

    open spec fn value_at(&self, path: Seq<char>) -> Option<ValView> {
        match crate::text::after_prefix(path, "event."@) {
            Some(key) => self.field_at(key),
            None => None,
        }
    }

    /// Under `event.exception.values` stand the chained exceptions of the
    /// event, the oldest first. No other path leads to a list.
    open spec fn items_at(&self, path: Seq<char>) -> Option<Seq<Exception>> {
        if path == "event.exception.values"@ {
            self.exceptions_held()
        } else {
            None
        }
    }

    fn get_value(&self, path: &str) -> (r: Option<Val<'_>>) {
        let key = strip_prefix(path, "event.")?;
        match self.exact_value(key) {
            Some(v) => v,
            None => self.dynamic_value(key),
        }
    }

    fn get_iter(&self, path: &str) -> (r: Option<Vec<&Exception>>) {
        if !str_eq(path, "event.exception.values") {
            return None;
        }
        let exceptions = self.exceptions.value()?;
        let values = exceptions.values.value()?;
        let mut found: Vec<&Exception> = Vec::new();
        let n = values.len();
        let mut i: usize = 0;
        while i < n
            invariant
                n == values@.len(),
                i <= n,
                found@.len() == crate::protocol::access::present_upto(values@, i as int).len(),
                forall|j: int|
                    0 <= j < found@.len() ==> *found@[j] == crate::protocol::access::present_upto(
                        values@,
                        i as int,
                    )[j],
            decreases n - i,
        {
            if let Some(exception) = values[i].value() {
                found.push(exception);
            }
            i += 1;
        }
        Some(found)
    }
}

impl Getter for Exception {
    type Item = Exception;

    open spec fn items_at(&self, path: Seq<char>) -> Option<Seq<Exception>> {
        None
    }

    open spec fn value_at(&self, path: Seq<char>) -> Option<ValView> {
        if path == "ty"@ {
            text_val(self.ty)
        } else if path == "value"@ {
            text_val(self.value)
        } else {
            None
        }
    }

    fn get_value(&self, path: &str) -> (r: Option<Val<'_>>) {
        if str_eq(path, "ty") {
            text_of(&self.ty)
        } else if str_eq(path, "value") {
            text_of(&self.value)
        } else {
            None
        }
    }

    fn get_iter(&self, path: &str) -> (r: Option<Vec<&Exception>>) {
        None
    }
}

/// A path of the table of fixed paths is answered from the table, whatever
/// the open bags hold under a prefix of the path.
pub proof fn lemma_exact_before_prefix(event: Event, key: Seq<char>)
    requires
        event.exact_at(key) is Some,
    ensures
        event.value_at("event."@ + key) == event.exact_at(key)->0,
{
    let path = "event."@ + key;
    assert("event."@.is_prefix_of(path));
    assert(path.skip("event."@.len() as int) =~= key);
}

/// The lookup of a header of the request does not depend on the case of the
/// ASCII letters of the name that is asked for.
pub proof fn lemma_header_path_case_insensitive(event: Event, first: Seq<char>, second: Seq<char>)
    requires
        crate::text::ascii_folded(first) == crate::text::ascii_folded(second),
    ensures
        event.header_text(first) == event.header_text(second),
{
    match event.request.0 {
        Some(request) => match request.headers.0 {
            Some(headers) => {
                crate::protocol::pairs::lemma_header_case_insensitive(
                    headers.0.0@,
                    first,
                    second,
                    0,
                );
            },
            None => {},
        },
        None => {},
    }
}

/// The duration of an event is defined exactly where the event is a
/// transaction, has a start and an end, and does not end before it starts.
/// Where it is defined, its whole milliseconds and the nanoseconds of the
/// millisecond that has begun make up the time from the start to the end.
pub proof fn lemma_duration(event: Event)
    ensures
        event.duration() is Some <==> (event.ty.0 == Some(EventType::Transaction)
            && event.start_timestamp.0 is Some && event.timestamp.0 is Some
            && event.start_timestamp.0->0.total_nanos() <= event.timestamp.0->0.total_nanos()),
        event.duration() matches Some(span) ==> span.nanos < 1_000_000 && span.whole * 1_000_000
            + span.nanos == event.timestamp.0->0.total_nanos()
            - event.start_timestamp.0->0.total_nanos(),
        event.value_at("event.duration"@) == event.duration_val(),
{
    match (event.start_timestamp.0, event.timestamp.0) {
        (Some(start), Some(end)) => {
            crate::protocol::types::lemma_millis_since(end, start);
        },
        _ => {},
    }
    reveal_strlit("event.duration");
    reveal_strlit("event.");
    reveal_strlit("duration");
    assert("event."@.is_prefix_of("event.duration"@));
    assert("event.duration"@.skip("event."@.len() as int) =~= "duration"@);
    lemma_core_paths();
}

/// The fixed paths of the first table are different paths.
proof fn lemma_core_paths()
    ensures
        "duration"@ != "level"@,
        "duration"@ != "release"@,
        "duration"@ != "dist"@,
        "duration"@ != "environment"@,
        "duration"@ != "transaction"@,
        "duration"@ != "logger"@,
        "duration"@ != "platform"@,
        "duration"@ != "logentry.formatted"@,
        "duration"@ != "logentry.message"@,
        "duration"@ != "transaction.source"@,
        "duration"@ != "sdk.name"@,
        "duration"@ != "sdk.version"@,
{
    reveal_strlit("duration");
    reveal_strlit("level");
    reveal_strlit("release");
    reveal_strlit("dist");
    reveal_strlit("environment");
    reveal_strlit("transaction");
    reveal_strlit("logger");
    reveal_strlit("platform");
    reveal_strlit("logentry.formatted");
    reveal_strlit("logentry.message");
    reveal_strlit("transaction.source");
    reveal_strlit("sdk.name");
    reveal_strlit("sdk.version");
    assert("duration"@.len() == 8);
    assert("duration"@[0] == 'd' && "duration"@[1] == 'u');
    assert("level"@.len() == 5);
    assert("release"@.len() == 7);
    assert("dist"@.len() == 4);
    assert("environment"@.len() == 11);
    assert("transaction"@.len() == 11);
    assert("logger"@.len() == 6);
    assert("platform"@[0] == 'p');
    assert("logentry.formatted"@.len() == 18);
    assert("logentry.message"@.len() == 16);
    assert("transaction.source"@.len() == 18);
    assert("sdk.name"@[0] == 's');
    assert("sdk.version"@.len() == 11);
}

} // verus!
