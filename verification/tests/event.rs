use relay_event_schema::annotated::Annotated;
use relay_event_schema::getter::{Getter, Val};
use relay_event_schema::number::FiniteF64;
use relay_event_schema::protocol::{
    AppContext, Breakdowns, ClientSdkInfo, Context, ContextInner, Contexts, DefaultContext,
    DeviceContext, Event, EventId, EventType, Exception, ExtraValue, Headers, HeaderName,
    HeaderValue, HexId, IpAddr, JsonLenientString, LenientString, Level, LogEntry, Measurement,
    Measurements, Message, Millis, MonitorContext, OsContext, PairList, ProfileContext, Request,
    RuntimeContext, TagEntry, Tags, Timestamp, TransactionInfo, TransactionSource, User, Values,
};
use relay_event_schema::value::{Object, Value};

fn device_uuid() -> u128 {
    uuid::Uuid::parse_str("abadcade-feed-dead-beef-baddadfeeded").unwrap().as_u128()
}

fn profile_uuid() -> u128 {
    uuid::Uuid::parse_str("abadcade-feed-dead-beef-8addadfeedaa").unwrap().as_u128()
}

#[test]
fn test_extra_at() {
    let mut inner = Object::new();
    inner.insert("d".to_owned(), Annotated::new(Value::String("string2".to_owned())));
    inner.insert("e".to_owned(), Annotated::empty());
    let mut extra = Object::new();
    extra.insert(
        "a".to_owned(),
        Annotated::new(ExtraValue(Value::String("string1".to_owned()))),
    );
    extra.insert("b".to_owned(), Annotated::new(ExtraValue(Value::I64(42))));
    extra.insert("c".to_owned(), Annotated::new(ExtraValue(Value::Object(inner))));
    let event = Event { extra: Annotated::new(extra), ..Default::default() };

    assert_eq!(
        Some(&Value::String("string1".to_owned())),
        event.extra_at("a")
    );
    assert_eq!(Some(&Value::I64(42)), event.extra_at("b"));
    assert!(matches!(event.extra_at("c"), Some(&Value::Object(_))));
    assert_eq!(None, event.extra_at("d"));
    assert_eq!(
        Some(&Value::String("string2".to_owned())),
        event.extra_at("c.d")
    );
    assert_eq!(None, event.extra_at("c.e"));
    assert_eq!(None, event.extra_at("c.f"));
}

#[test]
fn test_field_value_provider_event_filled() {
    let event = Event {
        level: Annotated::new(Level::Info),
        release: Annotated::new(LenientString("1.1.1".to_owned())),
        environment: Annotated::new("prod".to_owned()),
        user: Annotated::new(User {
            ip_address: Annotated::new(IpAddr("127.0.0.1".to_owned())),
            id: Annotated::new(LenientString("user-id".into())),
            segment: Annotated::new("user-seg".into()),
            sentry_user: Annotated::new("id:user-id".into()),
            ..Default::default()
        }),
        client_sdk: Annotated::new(ClientSdkInfo {
            name: Annotated::new("sentry-javascript".into()),
            version: Annotated::new("1.87.0".into()),
            ..Default::default()
        }),
        exceptions: Annotated::new(Values {
            values: Annotated::new(vec![Annotated::new(Exception {
                value: Annotated::new(JsonLenientString("canvas.contentDocument".to_owned())),
                ..Default::default()
            })]),
            ..Default::default()
        }),
        logentry: Annotated::new(LogEntry {
            formatted: Annotated::new(Message("formatted".to_owned())),
            message: Annotated::new(Message("message".to_owned())),
            ..Default::default()
        }),
        request: Annotated::new(Request {
            headers: Annotated::new(Headers(PairList(vec![Annotated::new((
                Annotated::new(HeaderName("user-agent".into())),
                Annotated::new(HeaderValue("Slurp".into())),
            ))]))),
            url: Annotated::new("https://sentry.io".into()),
            ..Default::default()
        }),
        transaction: Annotated::new("some-transaction".into()),
        transaction_info: Annotated::new(TransactionInfo {
            source: Annotated::new(TransactionSource::Route),
            ..Default::default()
        }),
        tags: {
            let items = vec![Annotated::new(TagEntry(
                Annotated::new("custom".to_owned()),
                Annotated::new("custom-value".to_owned()),
            ))];
            Annotated::new(Tags(PairList(items)))
        },
        contexts: Annotated::new({
            let mut contexts = Contexts::new();
            contexts.add(DeviceContext {
                name: Annotated::new("iphone".to_owned()),
                family: Annotated::new("iphone-fam".to_owned()),
                model: Annotated::new("iphone7,3".to_owned()),
                screen_dpi: Annotated::new(560),
                screen_width_pixels: Annotated::new(1920),
                screen_height_pixels: Annotated::new(1080),
                locale: Annotated::new("US".into()),
                uuid: Annotated::new(HexId(device_uuid())),
                charging: Annotated::new(true),
                ..DeviceContext::default()
            });
            contexts.add(OsContext {
                name: Annotated::new("iOS".to_owned()),
                version: Annotated::new("11.4.2".to_owned()),
                kernel_version: Annotated::new("17.4.0".to_owned()),
                ..OsContext::default()
            });
            contexts.add(ProfileContext {
                profile_id: Annotated::new(EventId(profile_uuid())),
                ..ProfileContext::default()
            });
            let mut monitor_context_fields = Object::new();
            monitor_context_fields.insert(
                "id".to_owned(),
                Annotated::new(Value::String("123".to_owned())),
            );
            monitor_context_fields.insert(
                "slug".to_owned(),
                Annotated::new(Value::String("my_monitor".to_owned())),
            );
            contexts.add(MonitorContext(monitor_context_fields));
            contexts
        }),
        ..Default::default()
    };

    assert_eq!(Some(Val::String("info")), event.get_value("event.level"));

    assert_eq!(Some(Val::String("1.1.1")), event.get_value("event.release"));
    assert_eq!(
        Some(Val::String("prod")),
        event.get_value("event.environment")
    );
    assert_eq!(
        Some(Val::String("user-id")),
        event.get_value("event.user.id")
    );
    assert_eq!(
        Some(Val::String("id:user-id")),
        event.get_value("event.sentry_user")
    );
    assert_eq!(
        Some(Val::String("user-seg")),
        event.get_value("event.user.segment")
    );
    assert_eq!(
        Some(Val::String("some-transaction")),
        event.get_value("event.transaction")
    );
    assert_eq!(
        Some(Val::String("iphone")),
        event.get_value("event.contexts.device.name")
    );
    assert_eq!(
        Some(Val::String("iphone-fam")),
        event.get_value("event.contexts.device.family")
    );
    assert_eq!(
        Some(Val::String("iOS")),
        event.get_value("event.contexts.os.name")
    );
    assert_eq!(
        Some(Val::String("11.4.2")),
        event.get_value("event.contexts.os.version")
    );
    assert_eq!(
        Some(Val::String("custom-value")),
        event.get_value("event.tags.custom")
    );
    assert_eq!(None, event.get_value("event.tags.doesntexist"));
    assert_eq!(
        Some(Val::String("sentry-javascript")),
        event.get_value("event.sdk.name")
    );
    assert_eq!(
        Some(Val::String("1.87.0")),
        event.get_value("event.sdk.version")
    );
    assert_eq!(
        Some(Val::String("17.4.0")),
        event.get_value("event.contexts.os.kernel_version")
    );
    assert_eq!(
        Some(Val::I64(560)),
        event.get_value("event.contexts.device.screen_dpi")
    );
    assert_eq!(
        Some(Val::Bool(true)),
        event.get_value("event.contexts.device.charging")
    );
    assert_eq!(
        Some(Val::U64(1920)),
        event.get_value("event.contexts.device.screen_width_pixels")
    );
    assert_eq!(
        Some(Val::U64(1080)),
        event.get_value("event.contexts.device.screen_height_pixels")
    );
    assert_eq!(
        Some(Val::String("US")),
        event.get_value("event.contexts.device.locale")
    );
    assert_eq!(
        Some(Val::HexId(HexId(device_uuid()))),
        event.get_value("event.contexts.device.uuid")
    );
    assert_eq!(
        Some(Val::String("https://sentry.io")),
        event.get_value("event.request.url")
    );
    assert_eq!(
        Some(Val::HexId(HexId(profile_uuid()))),
        event.get_value("event.contexts.profile.profile_id")
    );
    assert_eq!(
        Some(Val::String("route")),
        event.get_value("event.transaction.source")
    );

    let exceptions = event.get_iter("event.exception.values").unwrap();
    let mut exceptions = exceptions.iter();
    let exception = exceptions.next().unwrap();
    assert_eq!(
        Some(Val::String("canvas.contentDocument")),
        exception.get_value("value")
    );
    assert!(exceptions.next().is_none());

    assert_eq!(
        Some(Val::String("formatted")),
        event.get_value("event.logentry.formatted")
    );
    assert_eq!(
        Some(Val::String("message")),
        event.get_value("event.logentry.message")
    );
    assert_eq!(
        Some(Val::String("123")),
        event.get_value("event.contexts.monitor.id")
    );
    assert_eq!(
        Some(Val::String("my_monitor")),
        event.get_value("event.contexts.monitor.slug")
    );
}

#[test]
fn test_field_value_provider_event_empty() {
    let event = Event::default();

    assert_eq!(None, event.get_value("event.release"));
    assert_eq!(None, event.get_value("event.environment"));
    assert_eq!(None, event.get_value("event.user.id"));
    assert_eq!(None, event.get_value("event.user.segment"));

    // now try with an empty user
    let event = Event {
        user: Annotated::new(User {
            ..Default::default()
        }),
        ..Default::default()
    };

    assert_eq!(None, event.get_value("event.user.id"));
    assert_eq!(None, event.get_value("event.user.segment"));
    assert_eq!(None, event.get_value("event.transaction"));
}

fn header(name: &str, value: &str) -> Annotated<(Annotated<HeaderName>, Annotated<HeaderValue>)> {
    Annotated::new((
        Annotated::new(HeaderName(name.to_owned())),
        Annotated::new(HeaderValue(value.to_owned())),
    ))
}

fn event_with_headers(
    headers: Vec<Annotated<(Annotated<HeaderName>, Annotated<HeaderValue>)>>,
) -> Event {
    Event {
        request: Annotated::new(Request {
            headers: Annotated::new(Headers(PairList(headers))),
            ..Default::default()
        }),
        ..Default::default()
    }
}

#[test]
fn test_header_lookup_ignores_ascii_case() {
    let event = event_with_headers(vec![
        header("Accept", "*/*"),
        Annotated::empty(),
        header("User-Agent", "first"),
        header("user-agent", "second"),
    ]);
    let upper = event.get_value("event.request.headers.USER-AGENT");
    let lower = event.get_value("event.request.headers.user-agent");
    assert_eq!(upper, lower);
    // The first header with the name counts.
    assert_eq!(lower, Some(Val::String("first")));
    assert_eq!(event.user_agent(), Some("first"));
    assert_eq!(event.get_value("event.request.headers.accept"), Some(Val::String("*/*")));
    assert_eq!(event.get_value("event.request.headers.host"), None);
    assert_eq!(Event::default().user_agent(), None);
}

#[test]
fn test_header_with_absent_value_ends_the_lookup() {
    let event = event_with_headers(vec![
        Annotated::new((Annotated::new(HeaderName("X-A".to_owned())), Annotated::empty())),
        header("x-a", "later"),
    ]);
    assert_eq!(event.get_value("event.request.headers.x-a"), None);
}

fn transaction(start: Option<Timestamp>, end: Option<Timestamp>, ty: Option<EventType>) -> Event {
    let mut event = Event::default();
    if let Some(start) = start {
        event.start_timestamp = Annotated::new(start);
    }
    if let Some(end) = end {
        event.timestamp = Annotated::new(end);
    }
    if let Some(ty) = ty {
        event.ty = Annotated::new(ty);
    }
    event
}

#[test]
fn test_duration_of_a_transaction() {
    let start = Timestamp::new(1_700_000_000, 500_000_000);
    let end = Timestamp::new(1_700_000_002, 250_000_123);
    let event = transaction(Some(start), Some(end), Some(EventType::Transaction));
    // 1.750000123 seconds.
    assert_eq!(
        event.get_value("event.duration"),
        Some(Val::Millis(Millis { whole: 1750, nanos: 123 }))
    );
    let same = transaction(Some(start), Some(start), Some(EventType::Transaction));
    assert_eq!(
        same.get_value("event.duration"),
        Some(Val::Millis(Millis { whole: 0, nanos: 0 }))
    );
    let before_epoch = transaction(
        Some(Timestamp::new(-2, 999_000_000)),
        Some(Timestamp::new(0, 0)),
        Some(EventType::Transaction),
    );
    assert_eq!(
        before_epoch.get_value("event.duration"),
        Some(Val::Millis(Millis { whole: 1001, nanos: 0 }))
    );
}

#[test]
fn test_duration_is_undefined() {
    let start = Timestamp::new(10, 0);
    let end = Timestamp::new(20, 0);
    let ty = Some(EventType::Transaction);
    assert_eq!(transaction(None, Some(end), ty).get_value("event.duration"), None);
    assert_eq!(transaction(Some(start), None, ty).get_value("event.duration"), None);
    assert_eq!(transaction(None, None, ty).get_value("event.duration"), None);
    assert_eq!(transaction(Some(end), Some(start), ty).get_value("event.duration"), None);
    assert_eq!(
        transaction(Some(start), Some(end), Some(EventType::Error)).get_value("event.duration"),
        None
    );
    assert_eq!(transaction(Some(start), Some(end), None).get_value("event.duration"), None);
}

#[test]
fn test_lookup_is_total() {
    let event = Event::default();
    for path in [
        "",
        "event",
        "event.",
        "event..",
        "level",
        "event.nothing",
        "event.contexts",
        "event.contexts.device",
        "event.release.",
        "event.release.unknown",
        "event.measurements.",
        "event.measurements.lcp",
        "event.breakdowns.span_ops",
        "event.extra.",
        "event.tags.",
        "event.request.headers.",
        "\u{1F980}.event.level",
        "event.user.geo",
    ] {
        assert_eq!(event.get_value(path), None, "{}", path);
        assert!(event.get_iter(path).is_none());
    }
    // An absent field has no value, whichever field it is.
    assert_eq!(event.get_value("event.platform"), None);
    let named = Event { platform: Annotated::new("python".to_owned()), ..Default::default() };
    assert_eq!(named.get_value("event.platform"), Some(Val::String("python")));
}

#[test]
fn test_table_comes_before_the_prefixes() {
    // `request.url` is a fixed path, and no header lookup.
    let mut event = event_with_headers(vec![header("url", "from-header")]);
    if let Some(request) = event.request.0.as_mut() {
        request.url = Annotated::new("https://example.org".to_owned());
    }
    assert_eq!(event.get_value("event.request.url"), Some(Val::String("https://example.org")));
    assert_eq!(event.get_value("event.request.headers.url"), Some(Val::String("from-header")));
    // `release` is a fixed path; `release.` starts a lookup in the parsed release.
    event.release = Annotated::new(LenientString("my.app@1.2.3+4a5b6c7d".to_owned()));
    assert_eq!(event.get_value("event.release"), Some(Val::String("my.app@1.2.3+4a5b6c7d")));
    assert_eq!(event.get_value("event.release.package"), Some(Val::String("my.app")));
}

#[test]
fn test_release_parts() {
    let event = Event {
        release: Annotated::new(LenientString("org.example.FooApp@1.0rc1+20200101100".to_owned())),
        ..Default::default()
    };
    assert_eq!(event.get_value("event.release.package"), Some(Val::String("org.example.FooApp")));
    assert_eq!(event.get_value("event.release.version.short"), Some(Val::String("1.0rc1")));
    assert_eq!(event.get_value("event.release.build"), None);
    assert_eq!(event.get_value("event.release.version"), None);
    let parsed = event.parse_release().unwrap();
    assert_eq!(parsed.package, Some("org.example.FooApp"));
    assert_eq!(parsed.version_short, Some("1.0rc1"));

    let hashed = Event {
        release: Annotated::new(LenientString(
            "a86d127c4b2f23a0a862620280427dcc01c78676".to_owned(),
        )),
        ..Default::default()
    };
    assert_eq!(
        hashed.get_value("event.release.build"),
        Some(Val::String("a86d127c4b2f23a0a862620280427dcc01c78676"))
    );
    assert_eq!(hashed.get_value("event.release.package"), None);

    let rejected = Event {
        release: Annotated::new(LenientString("latest".to_owned())),
        ..Default::default()
    };
    assert!(rejected.parse_release().is_none());
    assert_eq!(rejected.get_value("event.release.package"), None);
    assert!(Event::default().parse_release().is_none());
}

fn number(value: f64) -> FiniteF64 {
    FiniteF64::from_bits(value.to_bits()).unwrap()
}

fn measurements(entries: &[(&str, f64)]) -> Measurements {
    let mut object = Object::new();
    for (name, value) in entries {
        object.insert(
            name.to_string(),
            Annotated::new(Measurement {
                value: Annotated::new(number(*value)),
                ..Default::default()
            }),
        );
    }
    Measurements(object)
}

#[test]
fn test_measurements_and_breakdowns() {
    let mut breakdowns = Object::new();
    breakdowns.insert(
        "span_ops".to_owned(),
        Annotated::new(measurements(&[("ops.http", 12.5), ("ops.db", 3.0)])),
    );
    let event = Event {
        measurements: Annotated::new(measurements(&[("lcp", 420.69), ("fid.value", 1.0)])),
        breakdowns: Annotated::new(Breakdowns(breakdowns)),
        ..Default::default()
    };
    assert_eq!(event.measurement("lcp"), Some(number(420.69)));
    assert_eq!(event.measurement("cls"), None);
    assert_eq!(event.get_value("event.measurements.lcp.value"), Some(Val::F64(number(420.69))));
    assert_eq!(event.get_value("event.measurements.lcp"), None);
    assert_eq!(
        event.get_value("event.measurements.fid.value.value"),
        Some(Val::F64(number(1.0)))
    );
    assert_eq!(event.breakdown("span_ops", "ops.http"), Some(number(12.5)));
    assert_eq!(event.breakdown("span_ops", "ops.none"), None);
    assert_eq!(event.breakdown("none", "ops.http"), None);
    // The name of the breakdown ends at the first period.
    assert_eq!(
        event.get_value("event.breakdowns.span_ops.ops.db"),
        Some(Val::F64(number(3.0)))
    );
    assert_eq!(event.get_value("event.breakdowns.span_ops"), None);
}

#[test]
fn test_extra_lookup_returns_scalars_only() {
    let mut inner = Object::new();
    inner.insert("flag".to_owned(), Annotated::new(Value::Bool(true)));
    let mut extra = Object::new();
    extra.insert("n".to_owned(), Annotated::new(ExtraValue::from(Value::U64(9))));
    extra.insert("o".to_owned(), Annotated::new(ExtraValue(Value::Object(inner))));
    extra.insert("l".to_owned(), Annotated::new(ExtraValue(Value::Array(vec![]))));
    let event = Event { extra: Annotated::new(extra), ..Default::default() };
    assert_eq!(event.get_value("event.extra.n"), Some(Val::U64(9)));
    assert_eq!(event.get_value("event.extra.o.flag"), Some(Val::Bool(true)));
    assert_eq!(event.get_value("event.extra.o"), None);
    assert_eq!(event.get_value("event.extra.l"), None);
    assert_eq!(event.get_value("event.extra.n.deeper"), None);
    assert!(matches!(event.extra_at("l"), Some(Value::Array(_))));
}

#[test]
fn test_small_accessors() {
    let mut modules = Object::new();
    modules.insert("django".to_owned(), Annotated::new("3.0.0".to_owned()));
    let event = Event {
        modules: Annotated::new(modules),
        tags: Annotated::new(Tags(PairList(vec![
            Annotated::empty(),
            Annotated::new(TagEntry(
                Annotated::new("k".to_owned()),
                Annotated::new("v1".to_owned()),
            )),
            Annotated::new(TagEntry(
                Annotated::new("k".to_owned()),
                Annotated::new("v2".to_owned()),
            )),
        ]))),
        ..Default::default()
    };
    assert!(event.has_module("django"));
    assert!(!event.has_module("celery"));
    assert!(!Event::default().has_module("django"));
    assert_eq!(event.tag_value("k"), Some("v1"));
    assert_eq!(event.tag_value("K"), None);
    assert_eq!(Event::default().tag_value("k"), None);
    assert_eq!(event.sdk_name(), "unknown");
    assert_eq!(event.sdk_version(), "unknown");
    let with_sdk = Event {
        client_sdk: Annotated::new(ClientSdkInfo {
            name: Annotated::new("sentry.python".to_owned()),
            ..Default::default()
        }),
        ..Default::default()
    };
    assert_eq!(with_sdk.sdk_name(), "sentry.python");
    assert_eq!(with_sdk.sdk_version(), "unknown");
}

#[test]
fn test_or_none_drops_the_empty_string() {
    let event = Event {
        user: Annotated::new(User {
            email: Annotated::new(String::new()),
            name: Annotated::new(String::new()),
            ..Default::default()
        }),
        ..Default::default()
    };
    assert_eq!(event.get_value("event.user.email"), None);
    assert_eq!(event.get_value("event.user.name"), Some(Val::String("")));
    assert_eq!(relay_event_schema::protocol::or_none(&Annotated::new("x".to_owned())), Some("x"));
    assert_eq!(relay_event_schema::protocol::or_none(&Annotated::new(String::new())), None);
    assert_eq!(relay_event_schema::protocol::or_none(&Annotated::<String>::empty()), None);
}

#[test]
fn test_contexts_by_kind() {
    let mut contexts = Contexts::new();
    contexts.add(RuntimeContext {
        runtime: Annotated::new("rustc 1.27.0".to_owned()),
        name: Annotated::new("rustc".to_owned()),
        ..Default::default()
    });
    contexts.add(AppContext { in_foreground: Annotated::new(false), ..Default::default() });
    let mut unreal = Object::new();
    unreal.insert("crash_type".to_owned(), Annotated::new(Value::String("Assert".to_owned())));
    contexts.0.insert(
        "unreal".to_owned(),
        Annotated::new(ContextInner(Context::Other(unreal))),
    );
    // A runtime context under a key that is not its own is not found by kind.
    contexts.0.insert(
        "trace".to_owned(),
        Annotated::new(ContextInner(RuntimeContext::default().into_context())),
    );
    let event = Event { contexts: Annotated::new(contexts), ..Default::default() };
    assert_eq!(RuntimeContext::default_key(), "runtime");
    assert!(event.context::<RuntimeContext>().is_some());
    assert!(event.context::<OsContext>().is_none());
    assert_eq!(event.get_value("event.contexts.runtime"), Some(Val::String("rustc 1.27.0")));
    assert_eq!(event.get_value("event.contexts.runtime.name"), Some(Val::String("rustc")));
    assert_eq!(event.get_value("event.contexts.app.in_foreground"), Some(Val::Bool(false)));
    assert_eq!(event.get_value("event.contexts.unreal.crash_type"), Some(Val::String("Assert")));
    assert_eq!(event.get_value("event.contexts.trace.op"), None);
    // Adding a context again replaces it in place and leaves the others.
    let mut again = Contexts::new();
    again.add(OsContext { name: Annotated::new("a".to_owned()), ..Default::default() });
    again.add(AppContext::default());
    again.add(OsContext { name: Annotated::new("b".to_owned()), ..Default::default() });
    assert_eq!(again.0.len(), 2);
    assert_eq!(again.0.key_at(0), "os");
    assert_eq!(again.0.key_at(1), "app");
    assert_eq!(again.get::<OsContext>().and_then(|c| c.name.as_str()), Some("b"));
    assert!(again.get::<AppContext>().is_some());
    let context = RuntimeContext::default().into_context();
    assert!(RuntimeContext::cast(&context).is_some());
    assert!(OsContext::cast(&context).is_none());
    assert!(OsContext::from_context(context).is_none());
}

#[test]
fn test_exception_getter() {
    let exception = Exception {
        ty: Annotated::new("ZeroDivisionError".to_owned()),
        ..Default::default()
    };
    assert_eq!(exception.get_value("ty"), Some(Val::String("ZeroDivisionError")));
    assert_eq!(exception.get_value("value"), None);
    assert_eq!(exception.get_value("type"), None);
    assert_eq!(exception.get_value("event.ty"), None);
    assert!(exception.get_iter("value").is_none());
    assert!(exception.get_iter("event.exception.values").is_none());
}

#[test]
fn test_get_iter_skips_absent_exceptions() {
    let event = Event {
        exceptions: Annotated::new(Values {
            values: Annotated::new(vec![
                Annotated::new(Exception {
                    ty: Annotated::new("A".to_owned()),
                    ..Default::default()
                }),
                Annotated::empty(),
                Annotated::new(Exception {
                    ty: Annotated::new("B".to_owned()),
                    ..Default::default()
                }),
            ]),
            ..Default::default()
        }),
        ..Default::default()
    };
    let found = event.get_iter("event.exception.values").unwrap();
    let types: Vec<_> = found.iter().map(|e| e.get_value("ty")).collect();
    assert_eq!(types, vec![Some(Val::String("A")), Some(Val::String("B"))]);
    assert!(event.get_iter("event.exception").is_none());
    let without_list = Event {
        exceptions: Annotated::new(Values::default()),
        ..Default::default()
    };
    assert!(without_list.get_iter("event.exception.values").is_none());
}

#[test]
fn test_val_equality() {
    assert_eq!(Val::I64(5), Val::U64(5));
    assert_eq!(Val::U64(5), Val::I64(5));
    assert_ne!(Val::I64(-1), Val::U64(u64::MAX));
    assert_ne!(Val::U64(1), Val::Bool(true));
    assert_ne!(Val::String("1"), Val::U64(1));
    assert_eq!(Val::from_value(&Value::F64(number(2.5))), Some(Val::F64(number(2.5))));
    assert_eq!(Val::from_value(&Value::Array(vec![])), None);
    assert_eq!(Val::F64(number(0.0)), Val::F64(number(-0.0)));
    assert_ne!(Val::F64(number(0.0)), Val::F64(number(f64::MIN_POSITIVE)));
    assert_eq!(Value::F64(number(-0.0)), Value::F64(number(0.0)));
}

#[test]
fn test_event_id() {
    let id = EventId::parse("52df9022-8352-46ee-b317-dbd739ccd059").unwrap();
    assert_eq!(id.to_string(), "52df9022835246eeb317dbd739ccd059");
    assert_eq!(id, EventId(0x52df9022835246eeb317dbd739ccd059));
    assert_eq!("52df9022835246eeb317dbd739ccd059".parse::<EventId>(), Ok(id));
    assert!(EventId::parse("not an id").is_err());
    assert!(EventId::parse("").is_err());
    assert!(EventId::nil().is_nil());
    assert_eq!(EventId::nil().to_string(), "00000000000000000000000000000000");
    let fresh = EventId::new();
    assert!(!fresh.is_nil());
    assert_eq!((fresh.0 >> 76) & 0xf, 4);
    assert_eq!((fresh.0 >> 62) & 0x3, 2);
    assert_ne!(fresh, EventId::new());
    assert!(!EventId::default().is_nil());
}

#[test]
fn test_context_mut_changes_the_context_in_place() {
    let mut contexts = Contexts::new();
    contexts.add(OsContext { name: Annotated::new("Linux".to_owned()), ..Default::default() });
    contexts.add(RuntimeContext { name: Annotated::new("rustc".to_owned()), ..Default::default() });
    let mut event = Event { contexts: Annotated::new(contexts), ..Default::default() };
    assert!(event.context_mut::<DeviceContext>().is_none());
    let runtime = event.context_mut::<RuntimeContext>().unwrap();
    runtime.version = Annotated::new("1.27.0".to_owned());
    assert_eq!(
        event.context::<RuntimeContext>().and_then(|c| c.version.as_str()),
        Some("1.27.0")
    );
    assert_eq!(event.get_value("event.contexts.os.name"), Some(Val::String("Linux")));
    assert!(Event::default().context_mut::<RuntimeContext>().is_none());
    let mut context = RuntimeContext::default().into_context();
    assert!(OsContext::cast_mut(&mut context).is_none());
    assert!(RuntimeContext::cast_mut(&mut context).is_some());
    let mut object = Object::new();
    object.insert("a".to_owned(), Annotated::new(1u64));
    object.insert("b".to_owned(), Annotated::new(2u64));
    object.get_mut("b").unwrap().set_value(Some(5));
    assert!(object.get_mut("c").is_none());
    assert_eq!(object.value_at(0).value(), Some(&1));
    assert_eq!(object.value_at(1).value(), Some(&5));
}
