use relay_event_schema::annotated::Annotated;
use relay_event_schema::meta::Meta;
use relay_event_schema::number::FiniteF64;
use relay_event_schema::processor::{
    process_value, Descent, HookResult, Node, ProcessingResult, ProcessingState, Processor,
};
use relay_event_schema::protocol::{
    ClientSdkInfo, Context, Contexts, Event, Exception, Geo, HeaderName, LogEntry, PairList,
    Request, Timestamp, TraceContext, User, Values,
};
use relay_event_schema::value::{Array, Object, Value};
use relay_event_schema::value_type::ValueTypeSet;

/// Records the hooks that are called, for the two hooks that the tests are
/// about. Every other hook lets the traversal go on.
struct RecordingProcessor(Vec<String>);

impl Processor for RecordingProcessor {
    fn before_process<T: Node>(
        &mut self,
        _value: Option<&T>,
        _meta: &mut Meta,
        state: &ProcessingState<'_>,
    ) -> ProcessingResult {
        let _ = state;
        Ok(())
    }

    fn after_process<T: Node>(
        &mut self,
        _value: Option<&T>,
        _meta: &mut Meta,
        state: &ProcessingState<'_>,
    ) -> ProcessingResult {
        let _ = state;
        Ok(())
    }

    fn process_string(
        &mut self,
        value: &mut String,
        _meta: &mut Meta,
        state: &ProcessingState<'_>,
    ) -> ProcessingResult {
        let _ = value;
        self.0.push(format!("process_string({})", state.path()));
        Ok(())
    }

    fn process_u64(
        &mut self,
        value: &mut u64,
        _meta: &mut Meta,
        state: &ProcessingState<'_>,
    ) -> ProcessingResult {
        let _ = (value, state);
        Ok(())
    }

    fn process_i64(
        &mut self,
        value: &mut i64,
        _meta: &mut Meta,
        state: &ProcessingState<'_>,
    ) -> ProcessingResult {
        let _ = (value, state);
        Ok(())
    }

    fn process_finite_f64(
        &mut self,
        value: &mut FiniteF64,
        _meta: &mut Meta,
        state: &ProcessingState<'_>,
    ) -> ProcessingResult {
        let _ = (value, state);
        Ok(())
    }

    fn process_bool(
        &mut self,
        value: &mut bool,
        _meta: &mut Meta,
        state: &ProcessingState<'_>,
    ) -> ProcessingResult {
        let _ = (value, state);
        Ok(())
    }

    fn process_timestamp(
        &mut self,
        value: &mut Timestamp,
        _meta: &mut Meta,
        state: &ProcessingState<'_>,
    ) -> ProcessingResult {
        let _ = (value, state);
        Ok(())
    }

    fn process_value(
        &mut self,
        _value: &Value,
        _meta: &mut Meta,
        state: &ProcessingState<'_>,
    ) -> ProcessingResult {
        self.0.push(format!("process_value({})", state.path()));
        self.0.push("before_process_child_values".to_owned());
        self.0.push("after_process_child_values".to_owned());
        Ok(())
    }

    fn process_header_name(
        &mut self,
        _value: &HeaderName,
        _meta: &mut Meta,
        state: &ProcessingState<'_>,
    ) -> ProcessingResult {
        self.0.push(format!("process_header_name({})", state.path()));
        self.0.push("before_process_child_values".to_owned());
        self.0.push("after_process_child_values".to_owned());
        Ok(())
    }

    fn process_event(
        &mut self,
        _value: &Event,
        _meta: &mut Meta,
        state: &ProcessingState<'_>,
    ) -> HookResult {
        let _ = state;
        Ok(Descent::Recurse)
    }

    fn process_exception(
        &mut self,
        _value: &Exception,
        _meta: &mut Meta,
        state: &ProcessingState<'_>,
    ) -> HookResult {
        let _ = state;
        Ok(Descent::Recurse)
    }

    fn process_user(
        &mut self,
        _value: &User,
        _meta: &mut Meta,
        state: &ProcessingState<'_>,
    ) -> HookResult {
        let _ = state;
        Ok(Descent::Recurse)
    }

    fn process_geo(
        &mut self,
        _value: &Geo,
        _meta: &mut Meta,
        state: &ProcessingState<'_>,
    ) -> HookResult {
        let _ = state;
        Ok(Descent::Recurse)
    }

    fn process_request(
        &mut self,
        _value: &Request,
        _meta: &mut Meta,
        state: &ProcessingState<'_>,
    ) -> HookResult {
        let _ = state;
        Ok(Descent::Recurse)
    }

    fn process_client_sdk_info(
        &mut self,
        _value: &ClientSdkInfo,
        _meta: &mut Meta,
        state: &ProcessingState<'_>,
    ) -> HookResult {
        let _ = state;
        Ok(Descent::Recurse)
    }

    fn process_logentry(
        &mut self,
        _value: &LogEntry,
        _meta: &mut Meta,
        state: &ProcessingState<'_>,
    ) -> HookResult {
        let _ = state;
        Ok(Descent::Recurse)
    }

    fn process_context(
        &mut self,
        _value: &Context,
        _meta: &mut Meta,
        state: &ProcessingState<'_>,
    ) -> ProcessingResult {
        let _ = state;
        Ok(())
    }

    fn process_contexts(
        &mut self,
        _value: &Contexts,
        _meta: &mut Meta,
        state: &ProcessingState<'_>,
    ) -> ProcessingResult {
        let _ = state;
        Ok(())
    }

    fn process_trace_context(
        &mut self,
        _value: &TraceContext,
        _meta: &mut Meta,
        state: &ProcessingState<'_>,
    ) -> HookResult {
        let _ = state;
        Ok(Descent::Recurse)
    }

    fn process_array<T: Node>(
        &mut self,
        _value: &Array<T>,
        _meta: &mut Meta,
        state: &ProcessingState<'_>,
    ) -> HookResult {
        let _ = state;
        Ok(Descent::Recurse)
    }

    fn process_object<T: Node>(
        &mut self,
        _value: &Object<T>,
        _meta: &mut Meta,
        state: &ProcessingState<'_>,
    ) -> HookResult {
        let _ = state;
        Ok(Descent::Recurse)
    }

    fn process_pairlist<T: Node>(
        &mut self,
        _value: &PairList<T>,
        _meta: &mut Meta,
        state: &ProcessingState<'_>,
    ) -> HookResult {
        let _ = state;
        Ok(Descent::Recurse)
    }

    fn process_values<T: Node>(
        &mut self,
        _value: &Values<T>,
        _meta: &mut Meta,
        state: &ProcessingState<'_>,
    ) -> HookResult {
        let _ = state;
        Ok(Descent::Recurse)
    }

    fn process_other(
        &mut self,
        _other: &Object<Value>,
        state: &ProcessingState<'_>,
    ) -> HookResult {
        let _ = state;
        Ok(Descent::Recurse)
    }
}

#[test]
fn test_enums_processor_calls() {
    let mut processor = RecordingProcessor(vec![]);

    let mut value = Annotated::new(Value::String("hi".to_owned()));
    process_value(
        &mut value,
        &mut processor,
        &ProcessingState::root().enter_static("foo", None, ValueTypeSet::empty()),
    )
    .unwrap();

    // The hook for untyped values is called once, and the string inside is
    // shown to the hook for strings after it, under the same path.
    assert_eq!(
        processor.0,
        &[
            "process_value(foo)",
            "before_process_child_values",
            "after_process_child_values",
            "process_string(foo)"
        ]
    );
}

#[test]
fn test_simple_newtype() {
    let mut processor = RecordingProcessor(vec![]);

    let mut value = Annotated::new(HeaderName::new("hi"));
    process_value(
        &mut value,
        &mut processor,
        &ProcessingState::root().enter_static("foo", None, ValueTypeSet::empty()),
    )
    .unwrap();

    assert_eq!(
        processor.0,
        &[
            "process_header_name(foo)",
            "before_process_child_values",
            "after_process_child_values",
            "process_string(foo)"
        ]
    );
}
