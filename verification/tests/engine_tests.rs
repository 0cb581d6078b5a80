use rule_engine::ast::Value;
use rule_engine::engine::{Context, Rule};
use rule_engine::errors::EngineError;
use rule_engine::number::Decimal;
use rule_engine::record::{Record, RecordNode};

#[test]
fn test_rule_is_valid() {
    let valid_statements = vec![
        "1 == 1",
        "1.3421 == 1.3422",
        "23482.324123512 == 23482.324123512",
        "true == true",
    ];
    for statement in valid_statements {
        let result = Rule::is_valid(statement.into(), None);
        assert!(result);
    }
    let invalid_statements = vec!["1abc == 1", "true =="];
    for statement in invalid_statements {
        println!("Testing invalid statement: {}", statement);
        assert_eq!(Rule::is_valid(statement.into(), None), false);
    }
}

#[test]
fn test_evaluate_with_symbol_resolution() {
    let rule = Rule::new("age == 1".into()).unwrap();
    let mut dict = Record::new();
    dict.set_item("age", RecordNode::Leaf(Value::Integer(1)));
    let result = rule.evaluate(Some(&dict), None).unwrap();
    assert_eq!(result, Value::Boolean(true));
}

#[test]
fn test_evaluate_with_multisymbol_resolution() {
    let _attrs = &["hi", "im", "hank", "in", "utah"];
    let rule = Rule::new("age >= required_age".into()).unwrap();
    let mut dict = Record::new();
    dict.set_item("age", RecordNode::Leaf(Value::Integer(23)));
    dict.set_item("required_age", RecordNode::Leaf(Value::Integer(21)));
    let result = rule.evaluate(Some(&dict), None).unwrap();
    assert_eq!(result, Value::Boolean(true));
}

#[test]
fn test_evaluate_with_builtin_method() {
    let rule = Rule::new("age.as_lower == \"hank\"".into()).unwrap();
    let mut dict = Record::new();
    dict.set_item("age", RecordNode::Leaf(Value::String("HANK".to_string())));
    let result = rule.evaluate(Some(&dict), None).unwrap();
    assert_eq!(result, Value::Boolean(true));
}

#[test]
fn test_evaluate_with_value_from_builtin() {
    let rule = Rule::new(
        "provider1.language.language_code == provider2.language.language_code".into(),
    )
    .unwrap();
    let mut dict = Record::new();
    let mut provider1 = Record::new();
    provider1.set_item("language", RecordNode::Leaf(Value::String("en-US".to_string())));
    dict.set_item("provider1", RecordNode::Nested(provider1));
    let mut provider2 = Record::new();
    provider2.set_item("language", RecordNode::Leaf(Value::String("en".to_string())));
    dict.set_item("provider2", RecordNode::Nested(provider2));
    let result = rule.evaluate(Some(&dict), None).unwrap();
    assert_eq!(result, Value::Boolean(true));
}

#[test]
fn test_evaluate_unary_not() {
    let rule = Rule::new("not true".into()).unwrap();
    let result = rule.evaluate(None, None).unwrap();
    assert_eq!(result, Value::Boolean(false));
}

#[test]
fn test_evaluate_unary_minus() {
    let true_rule = Rule::new("1 > -1".into()).unwrap();
    let false_rule = Rule::new("-1 < -2".into()).unwrap();
    assert_eq!(true_rule.evaluate(None, None).unwrap(), Value::Boolean(true));
    assert_eq!(false_rule.evaluate(None, None).unwrap(), Value::Boolean(false));
}

#[test]
fn test_evaluation_test() {
    let rule =
        Rule::new("attribution.provider_facility_id and not attribution.unassigned".into())
            .unwrap();
    let mut dict = Record::new();
    let mut attribution = Record::new();
    attribution.set_item("unassigned", RecordNode::Leaf(Value::Boolean(false)));
    attribution.set_item(
        "provider_facility_id",
        RecordNode::Leaf(Value::String("1234".to_string())),
    );
    dict.set_item("attribution", RecordNode::Nested(attribution));
    // `and` demands boolean operands: the string-valued
    // provider_facility_id makes this an evaluation error, never a
    // truthiness coercion.
    let result = rule.evaluate(Some(&dict), None);
    assert!(matches!(result, Err(EngineError::EvaluationError(_))));
}

#[test]
fn test_logical_boolean_operands() {
    let rule = Rule::new("true and not false".into()).unwrap();
    assert_eq!(rule.evaluate(None, None).unwrap(), Value::Boolean(true));
    let rule2 = Rule::new("false or true".into()).unwrap();
    assert_eq!(rule2.evaluate(None, None).unwrap(), Value::Boolean(true));
    let rule3 = Rule::new("true and false".into()).unwrap();
    assert_eq!(rule3.evaluate(None, None).unwrap(), Value::Boolean(false));
    // A non-boolean operand of `and`/`or` is an evaluation error.
    let rule4 = Rule::new("'a' and true".into()).unwrap();
    assert!(matches!(
        rule4.evaluate(None, None),
        Err(EngineError::EvaluationError(_))
    ));
    let rule5 = Rule::new("true or 1".into()).unwrap();
    assert!(matches!(
        rule5.evaluate(None, None),
        Err(EngineError::EvaluationError(_))
    ));
}

#[test]
fn test_addition() {
    let rule = Rule::new("1.0 + 1".into()).unwrap();
    let result = rule.evaluate(None, None).unwrap();
    assert_eq!(result, Value::Integer(2));
}

#[test]
fn test_literal_determinism() {
    // A literal-only rule evaluates identically with and without a record.
    let rule = Rule::new("1 == 1".into()).unwrap();
    assert_eq!(rule.evaluate(None, None).unwrap(), Value::Boolean(true));
    let mut dict = Record::new();
    dict.set_item("noise", RecordNode::Leaf(Value::Integer(7)));
    assert_eq!(rule.evaluate(Some(&dict), None).unwrap(), Value::Boolean(true));
}

#[test]
fn test_mixed_numeric_equality() {
    let rule = Rule::new("1 == 1.0".into()).unwrap();
    assert_eq!(rule.evaluate(None, None).unwrap(), Value::Boolean(true));
    let rule2 = Rule::new("2 == 1.9".into()).unwrap();
    assert_eq!(rule2.evaluate(None, None).unwrap(), Value::Boolean(false));
}

#[test]
fn test_exact_decimal_addition() {
    // Decimal arithmetic is exact: no binary floating point drift.
    let rule = Rule::new("0.1 + 0.2 == 0.3".into()).unwrap();
    assert_eq!(rule.evaluate(None, None).unwrap(), Value::Boolean(true));
}

#[test]
fn test_truthiness_table() {
    assert_eq!(Value::Boolean(false).is_truthy(), false);
    assert_eq!(Value::Float(Decimal::new(0, 1)).is_truthy(), false);
    assert_eq!(Value::Integer(0).is_truthy(), false);
    assert_eq!(Value::String("".to_string()).is_truthy(), false);
    assert_eq!(Value::Boolean(true).is_truthy(), true);
    assert_eq!(Value::Float(Decimal::new(5, 1)).is_truthy(), true);
    assert_eq!(Value::Integer(-3).is_truthy(), true);
    assert_eq!(Value::String("x".to_string()).is_truthy(), true);
}

#[test]
fn test_matches_swallows_errors() {
    // An unresolved symbol is an evaluation failure, and matches() maps any
    // failure to false.
    let rule = Rule::new("missing_symbol".into()).unwrap();
    assert_eq!(rule.matches(None), false);
    let rule2 = Rule::new("1 + true".into()).unwrap();
    assert_eq!(rule2.matches(None), false);
    let rule3 = Rule::new("1 == 1".into()).unwrap();
    assert_eq!(rule3.matches(None), true);
}

#[test]
fn test_cross_type_comparison_fails() {
    let rule = Rule::new("'a' > 1".into()).unwrap();
    let result = rule.evaluate(None, None);
    assert!(matches!(result, Err(EngineError::EvaluationError(_))));
    let rule2 = Rule::new("'a' == 1".into()).unwrap();
    assert!(matches!(rule2.evaluate(None, None), Err(EngineError::EvaluationError(_))));
}

#[test]
fn test_context_shadows_record() {
    // A context binding shadows a record attribute of the same name.
    let ctx = Context::new(Some(vec![("age".to_string(), Value::Integer(1))]));
    let mut dict = Record::new();
    dict.set_item("age", RecordNode::Leaf(Value::Integer(99)));
    let rule = Rule::new("age == 1".into()).unwrap();
    assert_eq!(rule.evaluate(Some(&dict), Some(&ctx)).unwrap(), Value::Boolean(true));
}

#[test]
fn test_error_variants() {
    // Missing intermediate attribute: attribute resolution error.
    let rule = Rule::new("a.missing".into()).unwrap();
    let mut dict = Record::new();
    let mut inner = Record::new();
    inner.set_item("b", RecordNode::Leaf(Value::Integer(1)));
    dict.set_item("a", RecordNode::Nested(inner));
    assert!(matches!(
        rule.evaluate(Some(&dict), None),
        Err(EngineError::AttributeResolutionError(_))
    ));

    // A path ending on a nested mapping: attribute type error.
    let mut dict2 = Record::new();
    let mut mid = Record::new();
    mid.set_item("c", RecordNode::Leaf(Value::Integer(1)));
    let mut outer = Record::new();
    outer.set_item("b", RecordNode::Nested(mid));
    dict2.set_item("a", RecordNode::Nested(outer));
    let rule2 = Rule::new("a.b".into()).unwrap();
    assert!(matches!(
        rule2.evaluate(Some(&dict2), None),
        Err(EngineError::AttributeTypeError(_))
    ));

    // An unresolvable bare symbol: symbol resolution error.
    let rule3 = Rule::new("nowhere".into()).unwrap();
    assert!(matches!(
        rule3.evaluate(None, None),
        Err(EngineError::SymbolResolutionError(_))
    ));
}

#[test]
fn test_syntax_error_names_position() {
    let err = match Rule::new("true ==".into()) {
        Err(e) => e,
        Ok(_) => panic!("expected a syntax error"),
    };
    assert_eq!(err.position, "EOF");
    let err2 = match Rule::new("1 @ 2".into()) {
        Err(e) => e,
        Ok(_) => panic!("expected a syntax error"),
    };
    assert_eq!(err2.position, "line 1:2");
}
