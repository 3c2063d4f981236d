use relay_event_schema::annotated::Annotated;
use relay_event_schema::attrs::{FieldAttrs, Pii};
use relay_event_schema::meta::{ErrorKind, Meta, MetaError};
use relay_event_schema::number::FiniteF64;
use relay_event_schema::processor::{for_field, ProcessValue};
use relay_event_schema::protocol::{Level, SpanStatus, Timestamp, TransactionSource};
use relay_event_schema::text::push_decimal;
use relay_event_schema::value::{Object, Value};
use relay_event_schema::value_type::{ValueType, ValueTypeSet};

#[test]
fn test_value_type_set_operations() {
    let strings = ValueTypeSet::only(ValueType::String);
    let numbers = ValueTypeSet::only(ValueType::Number);
    let both = strings.union(numbers);
    assert!(both.contains(ValueType::String));
    assert!(both.contains(ValueType::Number));
    assert!(!both.contains(ValueType::Array));
    assert_eq!(both.intersection(strings), strings);
    assert!(strings.intersection(numbers).is_empty());
    assert_eq!(strings.insert(ValueType::Number), both);
    assert_eq!(both.insert(ValueType::Number), both);
    assert_eq!(ValueTypeSet::empty().union(ValueTypeSet::empty()), ValueTypeSet::empty());
    assert_ne!(strings, numbers);
}

#[test]
fn test_value_type_of_values() {
    assert_eq!(Value::Bool(true).value_type(), ValueTypeSet::only(ValueType::Boolean));
    assert_eq!(Value::I64(1).value_type(), ValueTypeSet::only(ValueType::Number));
    assert_eq!(Value::U64(1).value_type(), ValueTypeSet::only(ValueType::Number));
    assert_eq!(
        Value::F64(FiniteF64::from_bits(0.5f64.to_bits()).unwrap()).value_type(),
        ValueTypeSet::only(ValueType::Number)
    );
    assert_eq!(Value::String(String::new()).value_type(), ValueTypeSet::only(ValueType::String));
    assert_eq!(Value::Array(vec![]).value_type(), ValueTypeSet::only(ValueType::Array));
    assert_eq!(Value::Object(Object::new()).value_type(), ValueTypeSet::only(ValueType::Object));
    assert_eq!("x".to_owned().value_type(), ValueTypeSet::only(ValueType::String));
    assert_eq!(for_field(&Annotated::new(7u64)), ValueTypeSet::only(ValueType::Number));
    assert_eq!(for_field(&Annotated::<u64>::empty()), ValueTypeSet::empty());
    assert_eq!(Level::Info.value_type(), ValueTypeSet::empty());
}

#[test]
fn test_finite_numbers() {
    assert!(FiniteF64::from_bits(f64::NAN.to_bits()).is_none());
    assert!(FiniteF64::from_bits(f64::INFINITY.to_bits()).is_none());
    assert!(FiniteF64::from_bits(f64::NEG_INFINITY.to_bits()).is_none());
    let max = FiniteF64::from_bits(f64::MAX.to_bits()).unwrap();
    assert_eq!(f64::from_bits(max.to_bits()), f64::MAX);
    let tiny = FiniteF64::from_bits(f64::MIN_POSITIVE.to_bits()).unwrap();
    assert!(!tiny.is_zero());
    assert!(FiniteF64::from_bits(0.0f64.to_bits()).unwrap().is_zero());
    assert!(FiniteF64::from_bits((-0.0f64).to_bits()).unwrap().is_zero());
}

#[test]
fn test_object_keeps_insertion_order() {
    let mut object = Object::new();
    assert!(object.is_empty());
    assert!(object.insert("b".to_owned(), Annotated::new(1u64)).is_none());
    assert!(object.insert("a".to_owned(), Annotated::new(2u64)).is_none());
    let old = object.insert("b".to_owned(), Annotated::new(3u64));
    assert_eq!(old.and_then(|a| a.into_value()), Some(1));
    assert_eq!(object.len(), 2);
    assert_eq!(object.key_at(0), "b");
    assert_eq!(object.key_at(1), "a");
    assert_eq!(object.value_at(0).value(), Some(&3));
    assert_eq!(object.get("a").and_then(|a| a.value()), Some(&2));
    assert!(object.get("c").is_none());
    assert_eq!(object.position("a"), Some(1));
    assert!(object.contains_key("b"));
    assert!(!object.contains_key(""));
}

#[test]
fn test_value_equality() {
    let make = |text: &str| {
        let mut object = Object::new();
        object.insert(
            "k".to_owned(),
            Annotated::new(Value::Array(vec![
                Annotated::new(Value::String(text.to_owned())),
                Annotated::empty(),
            ])),
        );
        Value::Object(object)
    };
    assert_eq!(make("a"), make("a"));
    assert_ne!(make("a"), make("b"));
    assert_ne!(Value::I64(1), Value::U64(1));
    assert_ne!(Value::Array(vec![]), Value::Array(vec![Annotated::empty()]));
    let with_error = Value::Array(vec![Annotated::from_error(
        MetaError::expected("a primitive value"),
        Some(Value::Array(vec![])),
    )]);
    let without = Value::Array(vec![Annotated::empty()]);
    assert_ne!(with_error, without);
    assert_eq!(with_error, with_error);
}

#[test]
fn test_meta_and_annotated() {
    let mut meta = Meta::new();
    assert!(meta.is_empty());
    assert!(!meta.has_errors());
    meta.add_error(MetaError::new(ErrorKind::InvalidData));
    meta.add_error(MetaError::expected("a string"));
    assert!(meta.has_errors());
    assert_eq!(meta.errors.len(), 2);
    assert_eq!(meta.errors[0].kind, ErrorKind::InvalidData);
    assert_eq!(meta.errors[1].context, "a string");
    meta.set_original_value(Some(Value::Bool(false)));
    assert_eq!(meta.original_value(), Some(&Value::Bool(false)));
    assert!(!meta.is_empty());

    let mut annotated = Annotated::new(5u64);
    assert_eq!(annotated.value(), Some(&5));
    assert!(annotated.meta().is_empty());
    annotated.set_value(None);
    assert_eq!(annotated.value(), None);
    annotated.set_value(Some(6));
    assert_eq!(annotated.take_value(), Some(6));
    assert_eq!(annotated.into_value(), None);
    let mut changed = Annotated::new(1u64);
    *changed.value_mut().unwrap() = 2;
    changed.meta_mut().add_error(MetaError::new(ErrorKind::ValueTooLong));
    assert_eq!(changed.value(), Some(&2));
    assert_eq!(changed.meta().errors.len(), 1);
    assert!(Annotated::<u64>::empty().value_mut().is_none());
    let text = Annotated::new("abc".to_owned());
    assert_eq!(text.as_str(), Some("abc"));
    assert_eq!(Annotated::<String>::empty().as_str(), None);
    let failed: Annotated<u64> =
        Annotated::from_error(MetaError::new(ErrorKind::MissingAttribute), None);
    assert!(failed.value().is_none());
    assert!(failed.meta().has_errors());
}

#[test]
fn test_field_attrs() {
    let plain = FieldAttrs::new();
    assert_eq!(plain.pii, Pii::False);
    assert_eq!(plain.max_chars, None);
    assert!(plain.trim);
    let attrs = plain
        .pii(Pii::Maybe)
        .required(true)
        .nonempty(true)
        .trim_whitespace(true)
        .max_chars(200)
        .max_chars_allowance(20)
        .max_depth(7)
        .max_bytes(8192)
        .retain(true)
        .trim(false)
        .additional_properties();
    assert_eq!(
        attrs,
        FieldAttrs {
            required: true,
            nonempty: true,
            trim_whitespace: true,
            max_chars: Some(200),
            max_chars_allowance: 20,
            max_depth: Some(7),
            max_bytes: Some(8192),
            pii: Pii::Maybe,
            retain: true,
            trim: false,
            additional_properties: true,
        }
    );
}

#[test]
fn test_decimal_text() {
    let mut out = String::from("n=");
    push_decimal(&mut out, 0);
    out.push(',');
    push_decimal(&mut out, 9);
    out.push(',');
    push_decimal(&mut out, 10);
    out.push(',');
    push_decimal(&mut out, 4096);
    out.push(',');
    push_decimal(&mut out, usize::MAX);
    assert_eq!(out, format!("n=0,9,10,4096,{}", usize::MAX));
}

#[test]
fn test_names_of_enums() {
    assert_eq!(Level::Debug.name(), "debug");
    assert_eq!(Level::Fatal.name(), "fatal");
    assert_eq!(TransactionSource::Url.as_str(), "url");
    assert_eq!(SpanStatus::Success.as_str(), "ok");
    assert_eq!(SpanStatus::DataLoss.as_str(), "data_loss");
}

#[test]
fn test_timestamps() {
    let early = Timestamp::new(5, 999_999_999);
    let late = Timestamp::new(6, 0);
    assert!(early.le(late));
    assert!(early.le(early));
    assert!(!late.le(early));
    assert_eq!(early.millis_since(late), None);
    let span = late.millis_since(early).unwrap();
    assert_eq!((span.whole, span.nanos), (0, 1));
    let far = Timestamp::new(i64::MAX, 999_999_999).millis_since(Timestamp::new(i64::MIN, 0));
    let far = far.unwrap();
    assert_eq!(far.whole, (u64::MAX as u128) * 1000 + 999);
    assert_eq!(far.nanos, 999_999);
}
