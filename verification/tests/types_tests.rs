use rule_engine::ast::Value;
use rule_engine::number::Decimal;
use rule_engine::types::{ArgumentTypes, Assignment, DataType, FunctionSignature};
use rule_engine::utils::{parse_float, parse_timedelta};

#[test]
fn test_is_compatible() {
    assert!(DataType::Undefined.is_compatible(&DataType::String));
    assert!(DataType::String.is_compatible(&DataType::Undefined));
    assert!(DataType::Boolean.is_compatible(&DataType::Boolean));
    assert!(!DataType::Boolean.is_compatible(&DataType::String));
    assert!(DataType::Array(Box::new(DataType::Float))
        .is_compatible(&DataType::Array(Box::new(DataType::Undefined))));
    assert!(!DataType::Array(Box::new(DataType::Float))
        .is_compatible(&DataType::Array(Box::new(DataType::String))));
    // A mapping compares its value type.
    assert!(DataType::Mapping(Box::new(DataType::String), Box::new(DataType::Float))
        .is_compatible(&DataType::Mapping(Box::new(DataType::Boolean), Box::new(DataType::Float))));
}

#[test]
fn test_function_compatibility_is_exact() {
    let sig = |min: usize| {
        DataType::Function(Box::new(FunctionSignature {
            return_type: DataType::Float,
            argument_types: ArgumentTypes::Cons(
                Box::new(DataType::String),
                Box::new(ArgumentTypes::Empty),
            ),
            minimum_arguments: min,
        }))
    };
    assert!(sig(1).is_compatible(&sig(1)));
    assert!(!sig(1).is_compatible(&sig(2)));
}

#[test]
fn test_from_value_and_from_type() {
    assert_eq!(DataType::from_value(&Value::Integer(3)), DataType::Float);
    assert_eq!(DataType::from_value(&Value::Float(Decimal::new(5, 1))), DataType::Float);
    assert_eq!(DataType::from_value(&Value::Boolean(true)), DataType::Boolean);
    assert_eq!(
        DataType::from_value(&Value::String("x".to_string())),
        DataType::String
    );
    assert_eq!(DataType::from_type("int"), Some(DataType::Float));
    assert_eq!(DataType::from_type("str"), Some(DataType::String));
    assert_eq!(DataType::from_type("NoneType"), Some(DataType::Null));
    assert_eq!(
        DataType::from_type("_PYTHON_FUNCTION_TYPE"),
        Some(DataType::Function(Box::new(FunctionSignature {
            return_type: DataType::Undefined,
            argument_types: ArgumentTypes::Empty,
            minimum_arguments: 0,
        })))
    );
    assert_eq!(DataType::from_type("module"), None);
}

#[test]
fn test_assignment_infers_type() {
    let a = Assignment::new("age".to_string(), Value::Integer(30), Some(DataType::Undefined));
    assert_eq!(a.value_type, Some(DataType::Float));
    let b = Assignment::new("age".to_string(), Value::Integer(30), None);
    assert_eq!(b.value_type, None);
}

#[test]
fn test_parse_float() {
    let d = parse_float("1.25").unwrap();
    assert_eq!((d.units(), d.scale()), (125, 2));
    let neg = parse_float("-0.5").unwrap();
    assert_eq!((neg.units(), neg.scale()), (-5, 1));
    let whole = parse_float("42").unwrap();
    assert_eq!((whole.units(), whole.scale()), (42, 0));
    assert!(parse_float("01").is_err());
    assert!(parse_float("1.").is_err());
    assert!(parse_float("abc").is_err());
    assert!(parse_float("").is_err());
}

#[test]
fn test_parse_timedelta() {
    assert_eq!(parse_timedelta("P1W").unwrap(), 604800);
    assert_eq!(parse_timedelta("P1DT2H").unwrap(), 93600);
    assert_eq!(parse_timedelta("PT1H30M").unwrap(), 5400);
    assert_eq!(parse_timedelta("PT1,5S").unwrap(), 1);
    assert_eq!(parse_timedelta("PT0.5H").unwrap(), 1800);
    // The fraction of the sum truncates, not the fractions one by one.
    assert_eq!(parse_timedelta("PT0.99M0.6S").unwrap(), 60);
    assert_eq!(parse_timedelta("PT").unwrap(), 0);
    assert!(parse_timedelta("P").is_err());
    assert!(parse_timedelta("").is_err());
    assert!(parse_timedelta("P5").is_err());
    assert!(parse_timedelta("5W").is_err());
    assert_eq!(parse_timedelta("P1W2D").unwrap(), 777600);
}
