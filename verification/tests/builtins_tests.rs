use rule_engine::ast::Value;
use rule_engine::builtins::{as_lower, builtin_random, language_code, resolve_builtin_methods};

#[test]
fn test_as_lower() {
    assert_eq!(
        as_lower(Value::String("Hello".to_string())).unwrap(),
        Value::String("hello".to_string())
    );
    assert!(as_lower(Value::Integer(1)).is_err());
}

#[test]
fn test_language_code() {
    assert_eq!(
        language_code(Value::String("en".to_string())).unwrap(),
        Value::String("en".to_string())
    );
    assert_eq!(
        language_code(Value::String("en-US".to_string())).unwrap(),
        Value::String("en".to_string())
    );
    assert!(language_code(Value::Integer(1)).is_err());
    assert!(language_code(Value::String("".to_string())).is_err());
}

#[test]
fn test_resolve_builtin_methods() {
    assert!(resolve_builtin_methods("as_lower").is_ok());
    assert!(resolve_builtin_methods("language_code").is_ok());
    assert!(resolve_builtin_methods("shout").is_err());
}

#[test]
fn test_builtin_random_bounded() {
    for _ in 0..32 {
        assert!(builtin_random(Some(5)) <= 5);
    }
    let _unbounded = builtin_random(None);
}
