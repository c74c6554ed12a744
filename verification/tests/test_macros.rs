use cdumay_json::{
    convert_json_result, convert_json_result_with_context, convert_json_result_with_message,
    ErrorKind,
};
use serde_json::Value;
use std::collections::BTreeMap;

#[test]
fn test_convert_result_with_context() {
    let result: Result<Value, serde_json::Error> = serde_json::from_str("invalid json");
    let mut context = BTreeMap::new();
    context.insert("test".to_string(), serde_value::Value::String("value".to_string()));

    let converted = convert_json_result_with_message(result, context, "Test error");
    assert!(converted.is_err());

    let err = converted.unwrap_err();
    assert!(err.message().contains("Test error"));
}

#[test]
fn test_convert_result_without_text() {
    let result: Result<Value, serde_json::Error> = serde_json::from_str("invalid json");
    // The decoder's own wording stays with the failure; the error speaks in
    // the words of its kind.
    assert!(result.as_ref().unwrap_err().to_string().contains("expected value at"));
    let mut context = BTreeMap::new();
    context.insert("test".to_string(), serde_value::Value::String("value".to_string()));
    let converted = convert_json_result_with_context(result, context);
    assert!(converted.is_err());

    let err = converted.unwrap_err();
    assert_eq!(err.message(), "Syntax Error");
}

#[test]
fn test_convert_result_minimal() {
    let result: Result<Value, serde_json::Error> = serde_json::from_str("invalid json");
    let converted = convert_json_result(result);
    assert!(converted.is_err());
}

#[test]
fn test_convert_result_success() {
    let result: Result<Value, serde_json::Error> = serde_json::from_str("{}");
    let converted = convert_json_result(result);
    assert!(converted.is_ok());
}

#[test]
fn minimal_shortcut_has_empty_context_and_default_message() {
    let result: Result<Value, serde_json::Error> = serde_json::from_str("invalid json");
    let err = convert_json_result(result).unwrap_err();
    assert_eq!(err.kind(), ErrorKind::JsonSyntax);
    assert_eq!(err.message(), "Syntax Error");
    assert_eq!(err.code(), 400);
    assert!(err.context().is_empty());
}

#[test]
fn minimal_shortcut_on_truncated_input() {
    let result: Result<Value, serde_json::Error> = serde_json::from_str(r#"{"key": "value""#);
    let err = convert_json_result(result).unwrap_err();
    assert_eq!(err.kind(), ErrorKind::JsonEof);
    assert_eq!(err.message(), "Reached the end of the input data");
    assert!(err.context().is_empty());
}

#[test]
fn shortcut_with_context_keeps_the_context() {
    let result: Result<Value, serde_json::Error> = serde_json::from_str("invalid json");
    let mut context = BTreeMap::new();
    context.insert("test".to_string(), serde_value::Value::String("value".to_string()));
    context.insert("attempt".to_string(), serde_value::Value::U32(3));
    let err = convert_json_result_with_context(result, context.clone()).unwrap_err();
    assert_eq!(err.context(), &context);
    assert_eq!(err.context().len(), 2);
    assert!(!err.context().contains_key("origin"));
}

#[test]
fn shortcut_with_message_keeps_message_and_context() {
    let result: Result<Value, serde_json::Error> = serde_json::from_str("invalid json");
    let mut context = BTreeMap::new();
    context.insert("test".to_string(), serde_value::Value::String("value".to_string()));
    let err = convert_json_result_with_message(result, context.clone(), "Test error").unwrap_err();
    assert_eq!(err.kind(), ErrorKind::JsonSyntax);
    assert_eq!(err.message(), "Test error");
    assert_eq!(err.context(), &context);
}

#[test]
fn shortcut_with_an_empty_message() {
    let result: Result<Value, serde_json::Error> = serde_json::from_str("invalid json");
    let err = convert_json_result_with_message(result, BTreeMap::new(), "").unwrap_err();
    assert_eq!(err.message(), "");
}

#[test]
fn success_passes_through_the_minimal_shortcut() {
    let result: Result<Value, serde_json::Error> = serde_json::from_str(r#"{"key": [1, 2, 3]}"#);
    let expected: Value = serde_json::from_str(r#"{"key": [1, 2, 3]}"#).unwrap();
    assert_eq!(convert_json_result(result).unwrap(), expected);
}

#[test]
fn success_passes_through_with_context() {
    let result: Result<u64, serde_json::Error> = serde_json::from_str("42");
    let mut context = BTreeMap::new();
    context.insert("test".to_string(), serde_value::Value::Bool(true));
    assert_eq!(convert_json_result_with_context(result, context), Ok(42));
}

#[test]
fn success_passes_through_with_message() {
    let result: Result<String, serde_json::Error> = serde_json::from_str(r#""text""#);
    let converted = convert_json_result_with_message(result, BTreeMap::new(), "Test error");
    assert_eq!(converted, Ok("text".to_string()));
}
