use teo_c::hook::{
    perform_adapter, reply_is_supported, reply_validity, transform_adapter, validate_adapter,
    Validity,
};
use teo_c::value::{Content, Value, Value_BoolFromInt, Value_FromInt, Value_FromNull};
use std::cell::Cell;

fn text(s: &str) -> Content {
    Content::String(s.to_string())
}

fn upper(value: Value) -> Value {
    match value.content() {
        Content::String(s) => Value::new(Content::String(s.to_uppercase())),
        _ => value,
    }
}

fn never(_: &str) -> bool {
    false
}

#[test]
fn transform_upper_yields_the_uppercased_string() {
    assert_eq!(transform_adapter(&upper, text("hello")), text("HELLO"));
    assert_eq!(transform_adapter(&upper, text("")), text(""));
    assert_eq!(transform_adapter(&upper, Content::I32(3)), Content::I32(3));
    assert_eq!(transform_adapter(&upper, Content::Internal(8)), Content::Internal(8));
}

#[test]
fn transform_hands_the_input_to_the_callback() {
    let seen = Cell::new(0);
    let double = |value: Value| {
        let n = value.content().as_i32().expect("an int");
        seen.set(seen.get() + 1);
        Value_FromInt(n * 2)
    };
    assert_eq!(transform_adapter(&double, Content::I32(21)), Content::I32(42));
    assert_eq!(seen.get(), 1);
}

#[test]
fn validate_false_is_invalid() {
    let hook = |_: Value| Value_BoolFromInt(0);
    assert_eq!(validate_adapter(&hook, &never, Content::I32(1)), Some(Validity::Invalid));
}

#[test]
fn validate_true_is_valid() {
    let hook = |_: Value| Value_BoolFromInt(1);
    assert_eq!(validate_adapter(&hook, &never, Content::I32(1)), Some(Validity::Valid));
}

#[test]
fn validate_null_is_valid() {
    let hook = |_: Value| Value_FromNull();
    assert_eq!(validate_adapter(&hook, &never, Content::I32(1)), Some(Validity::Valid));
}

#[test]
fn validate_text_is_invalid_with_that_message() {
    let hook = |_: Value| Value::new(text("bad"));
    assert_eq!(
        validate_adapter(&hook, &never, Content::I32(1)),
        Some(Validity::InvalidWithMessage("bad".to_string()))
    );
}

#[test]
fn validate_text_that_the_framework_accepts_is_valid() {
    let hook = |_: Value| Value::new(text("fine"));
    let asked = Cell::new(0);
    let accepts = |s: &str| {
        asked.set(asked.get() + 1);
        s == "fine"
    };
    assert_eq!(validate_adapter(&hook, &accepts, Content::Null), Some(Validity::Valid));
    assert_eq!(asked.get(), 1);
}

#[test]
fn the_framework_is_asked_about_texts_only() {
    let asked = Cell::new(0);
    let accepts = |_: &str| {
        asked.set(asked.get() + 1);
        true
    };
    let hook = |_: Value| Value_BoolFromInt(0);
    assert_eq!(validate_adapter(&hook, &accepts, Content::Null), Some(Validity::Invalid));
    let hook = |_: Value| Value_FromNull();
    assert_eq!(validate_adapter(&hook, &accepts, Content::Null), Some(Validity::Valid));
    let hook = |_: Value| Value_FromInt(1);
    assert_eq!(validate_adapter(&hook, &accepts, Content::Null), None);
    assert_eq!(asked.get(), 0);
}

#[test]
fn validate_sees_the_input() {
    let hook = |value: Value| match value.content().as_i32() {
        Some(n) if n < 10 => Value_FromNull(),
        _ => Value::new(text("too large")),
    };
    assert_eq!(validate_adapter(&hook, &never, Content::I32(3)), Some(Validity::Valid));
    assert_eq!(
        validate_adapter(&hook, &never, Content::I32(30)),
        Some(Validity::InvalidWithMessage("too large".to_string()))
    );
}

#[test]
fn any_other_reply_has_no_meaning() {
    for content in [
        Content::I8(1),
        Content::I16(1),
        Content::I32(1),
        Content::I64(1),
        Content::U8(1),
        Content::U16(1),
        Content::U32(1),
        Content::U64(1),
        Content::F32(1),
        Content::F64(1),
        Content::Internal(1),
    ] {
        let reply = Value::new(content.duplicate());
        assert!(!reply_is_supported(&reply));
        let hook = |_: Value| Value::new(content.duplicate());
        assert_eq!(validate_adapter(&hook, &never, Content::Null), None);
    }
}

#[test]
fn supported_replies() {
    assert!(reply_is_supported(&Value_FromNull()));
    assert!(reply_is_supported(&Value_BoolFromInt(0)));
    assert!(reply_is_supported(&Value::new(text(""))));
}

#[test]
fn reply_validity_by_kind() {
    assert_eq!(reply_validity(&Value_FromNull(), false), Validity::Valid);
    assert_eq!(reply_validity(&Value_FromNull(), true), Validity::Valid);
    assert_eq!(reply_validity(&Value_BoolFromInt(1), false), Validity::Valid);
    assert_eq!(reply_validity(&Value_BoolFromInt(0), true), Validity::Invalid);
    assert_eq!(reply_validity(&Value::new(text("bad")), true), Validity::Valid);
    assert_eq!(
        reply_validity(&Value::new(text("bad")), false),
        Validity::InvalidWithMessage("bad".to_string())
    );
    assert_eq!(
        reply_validity(&Value::new(text("")), false),
        Validity::InvalidWithMessage(String::new())
    );
}

#[test]
fn perform_calls_the_callback_once_with_the_input() {
    let seen = Cell::new(None);
    let calls = Cell::new(0);
    let hook = |value: Value| {
        seen.set(value.content().as_i64());
        calls.set(calls.get() + 1);
    };
    perform_adapter(&hook, Content::I64(-9));
    assert_eq!(seen.get(), Some(-9));
    assert_eq!(calls.get(), 1);
}
