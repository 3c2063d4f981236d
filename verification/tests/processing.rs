use relay_event_schema::annotated::Annotated;
use relay_event_schema::meta::Meta;
use relay_event_schema::number::FiniteF64;
use relay_event_schema::processor::{
    process_value, CallCounter, Descent, HookResult, Node, ProcessValue, ProcessingAction,
    ProcessingResult, ProcessingState, Processor,
};
use relay_event_schema::protocol::{
    ClientSdkInfo, Context, Contexts, Event, Exception, Geo, HeaderName, LogEntry, PairList,
    Request, Timestamp, TraceContext, User, Values,
};
use relay_event_schema::value::{Array, Object, Value};
use relay_event_schema::attrs::{FieldAttrs, Pii};
use relay_event_schema::value_type::{ValueType, ValueTypeSet};

/// Records every hook that is called with the path it is called at, and ends
/// the traversal with `action` at the call with the number `stop_at`.
struct Recorder {
    calls: Vec<String>,
    stop_at: Option<usize>,
    action: ProcessingAction,
    skip_arrays: bool,
}

impl Recorder {
    fn new() -> Recorder {
        Recorder {
            calls: vec![],
            stop_at: None,
            action: ProcessingAction::DeleteValueHard,
            skip_arrays: false,
        }
    }

    fn stopping(stop_at: usize, action: ProcessingAction) -> Recorder {
        Recorder { calls: vec![], stop_at: Some(stop_at), action, skip_arrays: false }
    }

    fn record(&mut self, hook: &str, state: &ProcessingState<'_>) -> ProcessingResult {
        self.calls.push(format!("{}({})", hook, state.path()));
        if self.stop_at == Some(self.calls.len()) {
            Err(self.action)
        } else {
            Ok(())
        }
    }
}

impl Processor for Recorder {
    fn before_process<T: Node>(
        &mut self,
        _value: Option<&T>,
        _meta: &mut Meta,
        state: &ProcessingState<'_>,
    ) -> ProcessingResult {
        self.record("before_process", state)
    }

    fn after_process<T: Node>(
        &mut self,
        _value: Option<&T>,
        _meta: &mut Meta,
        state: &ProcessingState<'_>,
    ) -> ProcessingResult {
        self.record("after_process", state)
    }

    fn process_string(
        &mut self,
        value: &mut String,
        _meta: &mut Meta,
        state: &ProcessingState<'_>,
    ) -> ProcessingResult {
        if value.as_str() == "secret" {
            *value = "[redacted]".to_owned();
        }
        self.record("process_string", state)
    }

    fn process_u64(
        &mut self,
        value: &mut u64,
        _meta: &mut Meta,
        state: &ProcessingState<'_>,
    ) -> ProcessingResult {
        let _ = value;
        self.record("process_u64", state)
    }

    fn process_i64(
        &mut self,
        value: &mut i64,
        _meta: &mut Meta,
        state: &ProcessingState<'_>,
    ) -> ProcessingResult {
        let _ = value;
        self.record("process_i64", state)
    }

    fn process_finite_f64(
        &mut self,
        value: &mut FiniteF64,
        _meta: &mut Meta,
        state: &ProcessingState<'_>,
    ) -> ProcessingResult {
        let _ = value;
        self.record("process_finite_f64", state)
    }

    fn process_bool(
        &mut self,
        value: &mut bool,
        _meta: &mut Meta,
        state: &ProcessingState<'_>,
    ) -> ProcessingResult {
        let _ = value;
        self.record("process_bool", state)
    }

    fn process_timestamp(
        &mut self,
        value: &mut Timestamp,
        _meta: &mut Meta,
        state: &ProcessingState<'_>,
    ) -> ProcessingResult {
        let _ = value;
        self.record("process_timestamp", state)
    }

    fn process_value(
        &mut self,
        _value: &Value,
        _meta: &mut Meta,
        state: &ProcessingState<'_>,
    ) -> ProcessingResult {
        self.record("process_value", state)
    }

    fn process_header_name(
        &mut self,
        _value: &HeaderName,
        _meta: &mut Meta,
        state: &ProcessingState<'_>,
    ) -> ProcessingResult {
        self.record("process_header_name", state)
    }

    fn process_event(
        &mut self,
        _value: &Event,
        _meta: &mut Meta,
        state: &ProcessingState<'_>,
    ) -> HookResult {
        self.record("process_event", state)?;
        Ok(Descent::Recurse)
    }

    fn process_exception(
        &mut self,
        _value: &Exception,
        _meta: &mut Meta,
        state: &ProcessingState<'_>,
    ) -> HookResult {
        self.record("process_exception", state)?;
        Ok(Descent::Recurse)
    }

    fn process_user(
        &mut self,
        _value: &User,
        _meta: &mut Meta,
        state: &ProcessingState<'_>,
    ) -> HookResult {
        self.record("process_user", state)?;
        Ok(Descent::Recurse)
    }

    fn process_geo(
        &mut self,
        _value: &Geo,
        _meta: &mut Meta,
        state: &ProcessingState<'_>,
    ) -> HookResult {
        self.record("process_geo", state)?;
        Ok(Descent::Recurse)
    }

    fn process_request(
        &mut self,
        _value: &Request,
        _meta: &mut Meta,
        state: &ProcessingState<'_>,
    ) -> HookResult {
        self.record("process_request", state)?;
        Ok(Descent::Recurse)
    }

    fn process_client_sdk_info(
        &mut self,
        _value: &ClientSdkInfo,
        _meta: &mut Meta,
        state: &ProcessingState<'_>,
    ) -> HookResult {
        self.record("process_client_sdk_info", state)?;
        Ok(Descent::Recurse)
    }

    fn process_logentry(
        &mut self,
        _value: &LogEntry,
        _meta: &mut Meta,
        state: &ProcessingState<'_>,
    ) -> HookResult {
        self.record("process_logentry", state)?;
        Ok(Descent::Recurse)
    }

    fn process_context(
        &mut self,
        _value: &Context,
        _meta: &mut Meta,
        state: &ProcessingState<'_>,
    ) -> ProcessingResult {
        self.record("process_context", state)
    }

    fn process_contexts(
        &mut self,
        _value: &Contexts,
        _meta: &mut Meta,
        state: &ProcessingState<'_>,
    ) -> ProcessingResult {
        self.record("process_contexts", state)
    }

    fn process_trace_context(
        &mut self,
        _value: &TraceContext,
        _meta: &mut Meta,
        state: &ProcessingState<'_>,
    ) -> HookResult {
        self.record("process_trace_context", state)?;
        Ok(Descent::Recurse)
    }

    fn process_array<T: Node>(
        &mut self,
        _value: &Array<T>,
        _meta: &mut Meta,
        state: &ProcessingState<'_>,
    ) -> HookResult {
        self.record("process_array", state)?;
        if self.skip_arrays {
            Ok(Descent::Skip)
        } else {
            Ok(Descent::Recurse)
        }
    }

    fn process_object<T: Node>(
        &mut self,
        _value: &Object<T>,
        _meta: &mut Meta,
        state: &ProcessingState<'_>,
    ) -> HookResult {
        self.record("process_object", state)?;
        Ok(Descent::Recurse)
    }

    fn process_pairlist<T: Node>(
        &mut self,
        _value: &PairList<T>,
        _meta: &mut Meta,
        state: &ProcessingState<'_>,
    ) -> HookResult {
        self.record("process_pairlist", state)?;
        Ok(Descent::Recurse)
    }

    fn process_values<T: Node>(
        &mut self,
        _value: &Values<T>,
        _meta: &mut Meta,
        state: &ProcessingState<'_>,
    ) -> HookResult {
        self.record("process_values", state)?;
        Ok(Descent::Recurse)
    }

    fn process_other(
        &mut self,
        _other: &Object<Value>,
        state: &ProcessingState<'_>,
    ) -> HookResult {
        self.record("process_other", state)?;
        Ok(Descent::Recurse)
    }
}

fn strings(items: &[&str]) -> Array<String> {
    items.iter().map(|s| Annotated::new(s.to_string())).collect()
}

fn only(calls: &[String], hook: &str) -> Vec<String> {
    calls.iter().filter(|c| c.starts_with(hook)).cloned().collect()
}

#[test]
fn test_children_of_a_sequence_are_visited_once_without_its_own_hook() {
    let mut processor = Recorder::new();
    let mut items = strings(&["a", "b"]);
    let root = ProcessingState::root();
    let state = root.enter_static("list", None, ValueTypeSet::only(ValueType::Array));
    items.process_child_values(&mut processor, &state).unwrap();
    assert_eq!(
        processor.calls,
        vec![
            "before_process(list.0)",
            "process_string(list.0)",
            "after_process(list.0)",
            "before_process(list.1)",
            "process_string(list.1)",
            "after_process(list.1)",
        ]
    );
    assert_eq!(only(&processor.calls, "process_string").len(), 2);
    assert_eq!(only(&processor.calls, "process_array").len(), 0);
}

#[test]
fn test_process_value_calls_the_hook_of_a_sequence_once() {
    let mut processor = Recorder::new();
    let mut items = Annotated::new(strings(&["a", "b", "c"]));
    process_value(&mut items, &mut processor, &ProcessingState::root()).unwrap();
    assert_eq!(only(&processor.calls, "process_array"), vec!["process_array()"]);
    assert_eq!(
        only(&processor.calls, "process_string"),
        vec!["process_string(0)", "process_string(1)", "process_string(2)"]
    );
}

#[test]
fn test_children_of_an_untyped_value_are_not_visited_by_its_children_recursion() {
    let mut processor = Recorder::new();
    let mut value = Value::Array(vec![Annotated::new(Value::Bool(true))]);
    value.process_child_values(&mut processor, &ProcessingState::root()).unwrap();
    assert!(processor.calls.is_empty());
}

#[test]
fn test_skip_leaves_the_children_out() {
    let mut processor = Recorder::new();
    processor.skip_arrays = true;
    let mut items = Annotated::new(strings(&["a", "b"]));
    process_value(&mut items, &mut processor, &ProcessingState::root()).unwrap();
    assert_eq!(
        processor.calls,
        vec!["before_process()", "process_array()", "after_process()"]
    );
}

#[test]
fn test_bracketing_of_an_untyped_value() {
    let mut processor = Recorder::new();
    let mut value = Annotated::new(Value::String("hi".to_owned()));
    let root = ProcessingState::root();
    let state = root.enter_static("foo", None, ValueTypeSet::empty());
    process_value(&mut value, &mut processor, &state).unwrap();
    assert_eq!(
        processor.calls,
        vec![
            "before_process(foo)",
            "process_value(foo)",
            "before_process(foo)",
            "process_string(foo)",
            "after_process(foo)",
            "after_process(foo)",
        ]
    );
}

#[test]
fn test_sequence_in_an_untyped_value_numbers_from_its_place() {
    let mut processor = Recorder::new();
    let mut value = Annotated::new(Value::Array(vec![
        Annotated::new(Value::U64(1)),
        Annotated::new(Value::Array(vec![Annotated::new(Value::Bool(false))])),
    ]));
    let root = ProcessingState::root();
    let state = root.enter_static("data", None, ValueTypeSet::empty());
    process_value(&mut value, &mut processor, &state).unwrap();
    assert_eq!(only(&processor.calls, "process_u64"), vec!["process_u64(data.0)"]);
    assert_eq!(only(&processor.calls, "process_bool"), vec!["process_bool(data.1.0)"]);
    assert_eq!(
        only(&processor.calls, "process_array"),
        vec!["process_array(data)", "process_array(data.1)"]
    );
}

#[test]
fn test_short_circuit_in_a_sequence() {
    // Each element makes three calls; the fifth call is the hook for the
    // second string.
    let mut processor = Recorder::stopping(5, ProcessingAction::InvalidTransaction("bad"));
    let mut items = strings(&["a", "b", "c", "d"]);
    let result = items.process_child_values(&mut processor, &ProcessingState::root());
    assert_eq!(result, Err(ProcessingAction::InvalidTransaction("bad")));
    assert_eq!(
        processor.calls,
        vec![
            "before_process(0)",
            "process_string(0)",
            "after_process(0)",
            "before_process(1)",
            "process_string(1)",
        ]
    );
}

#[test]
fn test_soft_and_hard_delete_travel_up_unchanged() {
    for action in [ProcessingAction::DeleteValueSoft, ProcessingAction::DeleteValueHard] {
        let mut processor = Recorder::stopping(4, action);
        let mut value = Annotated::new(Value::Array(vec![Annotated::new(Value::I64(-3))]));
        let result = process_value(&mut value, &mut processor, &ProcessingState::root());
        assert_eq!(result, Err(action));
        // The value is still there: the engine folds nothing back.
        assert!(value.value().is_some());
        assert_eq!(processor.calls.len(), 4);
    }
}

#[test]
fn test_apply_folds_the_action_back() {
    let mut value = Annotated::new(Value::U64(7));
    assert_eq!(value.apply(Err(ProcessingAction::DeleteValueSoft)), Ok(()));
    assert!(value.value().is_none());
    assert_eq!(value.meta().original_value(), Some(&Value::U64(7)));

    let mut value = Annotated::new(Value::U64(7));
    assert_eq!(value.apply(Err(ProcessingAction::DeleteValueHard)), Ok(()));
    assert!(value.value().is_none());
    assert_eq!(value.meta().original_value(), None);

    let mut value = Annotated::new(Value::U64(7));
    assert_eq!(
        value.apply(Err(ProcessingAction::InvalidTransaction("no"))),
        Err(ProcessingAction::InvalidTransaction("no"))
    );
    assert_eq!(value.value(), Some(&Value::U64(7)));
    assert_eq!(value.apply(Ok(())), Ok(()));
    assert_eq!(value.value(), Some(&Value::U64(7)));
}

#[test]
fn test_paths_are_the_same_on_every_run() {
    let build = || {
        let mut object = Object::new();
        object.insert("b".to_owned(), Annotated::new(Value::String("x".to_owned())));
        object.insert("a".to_owned(), Annotated::new(Value::Array(vec![
            Annotated::new(Value::Bool(true)),
            Annotated::empty(),
        ])));
        Annotated::new(Value::Object(object))
    };
    let mut first = Recorder::new();
    let mut second = Recorder::new();
    let mut tree = build();
    let root = ProcessingState::root();
    process_value(&mut tree, &mut first, &root).unwrap();
    process_value(&mut tree, &mut second, &root).unwrap();
    assert_eq!(first.calls, second.calls);
    // Entries are visited in the order of insertion, not in the order of the keys.
    assert_eq!(only(&first.calls, "process_string"), vec!["process_string(b)"]);
    assert_eq!(only(&first.calls, "process_bool"), vec!["process_bool(a.0)"]);
    let b = first.calls.iter().position(|c| c == "process_string(b)").unwrap();
    let a = first.calls.iter().position(|c| c == "process_array(a)").unwrap();
    assert!(b < a);
    // The absent element is seen by the bracketing hooks only.
    assert_eq!(
        first.calls.iter().filter(|c| c.ends_with("(a.1)")).cloned().collect::<Vec<_>>(),
        vec!["before_process(a.1)", "after_process(a.1)"]
    );
}

#[test]
fn test_a_leaf_hook_changes_the_leaf() {
    let mut processor = Recorder::new();
    let mut items = strings(&["plain", "secret"]);
    items.process_child_values(&mut processor, &ProcessingState::root()).unwrap();
    assert_eq!(items[0].value().map(String::as_str), Some("plain"));
    assert_eq!(items[1].value().map(String::as_str), Some("[redacted]"));
}

#[test]
fn test_struct_fields_are_visited_in_order_with_their_names() {
    let mut processor = Recorder::new();
    let mut geo = Geo::default();
    geo.city = Annotated::new("Vienna".to_owned());
    geo.country_code = Annotated::new("AT".to_owned());
    geo.other.insert("planet".to_owned(), Annotated::new(Value::String("Earth".to_owned())));
    let mut geo = Annotated::new(geo);
    let root = ProcessingState::root();
    let state = root.enter_static("geo", None, ValueTypeSet::empty());
    process_value(&mut geo, &mut processor, &state).unwrap();
    assert_eq!(
        processor.calls,
        vec![
            "before_process(geo)",
            "process_geo(geo)",
            "before_process(geo.country_code)",
            "process_string(geo.country_code)",
            "after_process(geo.country_code)",
            "before_process(geo.city)",
            "process_string(geo.city)",
            "after_process(geo.city)",
            "before_process(geo.subdivision)",
            "after_process(geo.subdivision)",
            "before_process(geo.region)",
            "after_process(geo.region)",
            "process_other(geo)",
            "before_process(geo.planet)",
            "process_value(geo.planet)",
            "before_process(geo.planet)",
            "process_string(geo.planet)",
            "after_process(geo.planet)",
            "after_process(geo.planet)",
            "after_process(geo)",
        ]
    );
}

#[test]
fn test_event_traversal_reaches_nested_interfaces() {
    let mut processor = Recorder::new();
    let mut event = Event::default();
    event.user = Annotated::new(User {
        email: Annotated::new("a@b.c".to_owned()),
        geo: Annotated::new(Geo { city: Annotated::new("Graz".to_owned()), ..Default::default() }),
        ..Default::default()
    });
    event.exceptions = Annotated::new(Values {
        values: Annotated::new(vec![Annotated::new(Exception {
            ty: Annotated::new("Oops".to_owned()),
            ..Default::default()
        })]),
        ..Default::default()
    });
    let mut event = Annotated::new(event);
    process_value(&mut event, &mut processor, &ProcessingState::root()).unwrap();
    assert_eq!(only(&processor.calls, "process_event"), vec!["process_event()"]);
    assert_eq!(only(&processor.calls, "process_user"), vec!["process_user(user)"]);
    assert_eq!(only(&processor.calls, "process_geo"), vec!["process_geo(user.geo)"]);
    assert_eq!(
        only(&processor.calls, "process_string"),
        vec![
            "process_string(user.email)",
            "process_string(user.geo.city)",
            "process_string(exception.values.0.type)",
        ]
    );
    assert_eq!(only(&processor.calls, "process_values"), vec!["process_values(exception)"]);
    assert_eq!(
        only(&processor.calls, "process_exception"),
        vec!["process_exception(exception.values.0)"]
    );
}

#[test]
fn test_tuple_children_are_numbered_by_position() {
    let mut processor = Recorder::new();
    let mut pair = (Annotated::new("k".to_owned()), Annotated::new(5u64));
    pair.process_child_values(&mut processor, &ProcessingState::root()).unwrap();
    assert_eq!(only(&processor.calls, "process_string"), vec!["process_string(0)"]);
    assert_eq!(only(&processor.calls, "process_u64"), vec!["process_u64(1)"]);
    let mut triple = (Annotated::new(true), Annotated::<i64>::empty(), Annotated::new(1i64));
    let mut processor = Recorder::new();
    triple.process_child_values(&mut processor, &ProcessingState::root()).unwrap();
    assert_eq!(only(&processor.calls, "process_i64"), vec!["process_i64(2)"]);
    let mut twelve = (
        Annotated::new(0u64),
        Annotated::new(1u64),
        Annotated::new(2u64),
        Annotated::new(3u64),
        Annotated::new(4u64),
        Annotated::new(5u64),
        Annotated::new(6u64),
        Annotated::new(7u64),
        Annotated::new(8u64),
        Annotated::new(9u64),
        Annotated::new(10u64),
        Annotated::new("last".to_owned()),
    );
    let mut processor = Recorder::new();
    twelve.process_child_values(&mut processor, &ProcessingState::root()).unwrap();
    assert_eq!(only(&processor.calls, "process_u64").len(), 11);
    assert_eq!(only(&processor.calls, "process_u64")[10], "process_u64(10)");
    assert_eq!(only(&processor.calls, "process_string"), vec!["process_string(11)"]);
    let mut single = (Annotated::new(FiniteF64::from_bits(1.5f64.to_bits()).unwrap()),);
    let mut processor = Recorder::new();
    single.process_child_values(&mut processor, &ProcessingState::root()).unwrap();
    assert_eq!(only(&processor.calls, "process_finite_f64"), vec!["process_finite_f64(0)"]);
}

#[test]
fn test_boxed_value_is_transparent() {
    let mut processor = Recorder::new();
    let mut boxed = Annotated::new(Box::new("x".to_owned()));
    assert_eq!(boxed.value().unwrap().value_type(), ValueTypeSet::only(ValueType::String));
    let root = ProcessingState::root();
    let state = root.enter_static("b", None, ValueTypeSet::empty());
    process_value(&mut boxed, &mut processor, &state).unwrap();
    assert_eq!(
        processor.calls,
        vec!["before_process(b)", "process_string(b)", "after_process(b)"]
    );
}

#[test]
fn test_state_path_depth_and_policy() {
    let root = ProcessingState::root();
    assert_eq!(root.path(), "");
    assert_eq!(root.depth(), 0);
    assert_eq!(root.attrs(), FieldAttrs::new());
    let pii = FieldAttrs::new().pii(Pii::True).max_chars(10);
    let a = root.enter_static("exception", Some(pii), ValueTypeSet::only(ValueType::Exception));
    let b = a.enter_static("values", None, ValueTypeSet::only(ValueType::Array));
    let c = b.enter_index(12, None, ValueTypeSet::empty());
    let key = "frame".to_owned();
    let d = c.enter_borrowed(&key, Some(FieldAttrs::new()), ValueTypeSet::empty());
    let e = d.enter_nothing(None);
    assert_eq!(c.path(), "exception.values.12");
    assert_eq!(e.path(), "exception.values.12.frame");
    assert_eq!(c.depth(), 3);
    assert_eq!(d.depth(), 4);
    assert_eq!(e.depth(), 4);
    // The policy is inherited from the nearest state that sets one.
    assert_eq!(b.attrs(), pii);
    assert_eq!(c.attrs(), pii);
    assert_eq!(d.attrs(), FieldAttrs::new());
    assert_eq!(e.attrs(), FieldAttrs::new());
    assert_eq!(a.value_type(), ValueTypeSet::only(ValueType::Exception));
    assert_eq!(e.value_type(), ValueTypeSet::empty());
    let zero = root.enter_index(0, None, ValueTypeSet::empty());
    assert_eq!(zero.path(), "0");
    let big = root.enter_index(1_000_000_007, None, ValueTypeSet::empty());
    assert_eq!(big.path(), "1000000007");
    // An empty key still takes its place in the path.
    let empty = root.enter_static("", None, ValueTypeSet::empty());
    assert_eq!(empty.enter_index(3, None, ValueTypeSet::empty()).path(), ".3");
}

#[test]
fn test_action_messages() {
    assert_eq!(
        ProcessingAction::DeleteValueHard.message(),
        "value should be hard-deleted (unreachable, should not surface as error!)"
    );
    assert_eq!(
        ProcessingAction::DeleteValueSoft.message(),
        "value should be hard-deleted (unreachable, should not surface as error!)"
    );
    assert_eq!(
        ProcessingAction::InvalidTransaction("no spans").message(),
        "invalid transaction event: no spans"
    );
}

#[test]
fn test_call_counter_counts_two_strings_and_no_sequence() {
    let mut counter = CallCounter::new();
    let mut items = strings(&["a", "b"]);
    items.process_child_values(&mut counter, &ProcessingState::root()).unwrap();
    assert_eq!(counter, CallCounter { strings: 2, arrays: 0, others: 0 });
    let mut items = Annotated::new(items);
    process_value(&mut items, &mut counter, &ProcessingState::root()).unwrap();
    assert_eq!(counter, CallCounter { strings: 4, arrays: 1, others: 0 });
    let mut value = Annotated::new(Value::Bool(true));
    process_value(&mut value, &mut counter, &ProcessingState::root()).unwrap();
    assert_eq!(counter, CallCounter { strings: 4, arrays: 1, others: 2 });
    let mut full = CallCounter { strings: u64::MAX, arrays: 0, others: 0 };
    let mut items = strings(&["a"]);
    items.process_child_values(&mut full, &ProcessingState::root()).unwrap();
    assert_eq!(full.strings, u64::MAX);
}

#[test]
fn test_what_a_wrapper_holds_is_always_shown() {
    let mut processor = Recorder::new();
    let mut name = Annotated::new(HeaderName::new("Accept"));
    let root = ProcessingState::root();
    let state = root.enter_static("name", None, ValueTypeSet::empty());
    process_value(&mut name, &mut processor, &state).unwrap();
    assert_eq!(
        processor.calls,
        vec![
            "before_process(name)",
            "process_header_name(name)",
            "process_string(name)",
            "after_process(name)",
        ]
    );
    // Only an action of the hook keeps the engine from the string.
    let mut processor = Recorder::stopping(2, ProcessingAction::DeleteValueSoft);
    let result = process_value(&mut name, &mut processor, &state);
    assert_eq!(result, Err(ProcessingAction::DeleteValueSoft));
    assert_eq!(processor.calls, vec!["before_process(name)", "process_header_name(name)"]);
}
