use rule_engine::parser::Parser;

#[test]
fn test_parsing_strings() {
    let parser = Parser::new();
    // Test double quotes
    assert!(parser.parse_internal(String::from("\"hello\"")).is_ok());
    // Test single quotes
    assert!(parser.parse_internal(String::from("\'hello\'")).is_ok());
}

#[test]
fn test_parse_error_message() {
    let parser = Parser::new();
    let err = parser.parse_internal(String::from("true ==")).unwrap_err();
    assert!(err.message.starts_with("Failed to parse expression: "));
}

#[test]
fn test_parentheses_and_precedence() {
    let parser = Parser::new();
    assert!(parser.parse_internal(String::from("(1 == 1) and (2 == 2)")).is_ok());
    assert!(parser.parse_internal(String::from("1 + 2 + 3 == 6")).is_ok());
    assert!(parser.parse_internal(String::from("(1 == 1")).is_err());
    assert!(parser.parse_internal(String::from("not")).is_err());
    assert!(parser.parse_internal(String::from("")).is_err());
}

#[test]
fn test_number_literal_rules() {
    let parser = Parser::new();
    // Redundant leading zeros are refused; a bare zero is fine.
    assert!(parser.parse_internal(String::from("0 == 0")).is_ok());
    assert!(parser.parse_internal(String::from("01 == 1")).is_err());
    assert!(parser.parse_internal(String::from("0.5 == 0.5")).is_ok());
    // A dot must be followed by fraction digits.
    assert!(parser.parse_internal(String::from("1. == 1")).is_err());
    // Mantissas longer than eighteen digits do not fit exactly.
    assert!(parser.parse_internal(String::from("12345678901234567890 == 1")).is_err());
}
