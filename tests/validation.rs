use echoes_storage::error::{CustomError, CustomErrorInto, SqlError, ValidationFailure};
use echoes_storage::identifier::Identifier;
use echoes_storage::relational::{contains_injection_phrase, Operator, ValidatedValue, WhereCondition};
use echoes_storage::validator::{contains_sql_pattern, TextValidator, ValidationLevel};

fn failure(r: Result<(), SqlError>) -> ValidationFailure {
    match r {
        Err(SqlError::Validation(f, _, _)) => f,
        other => panic!("expected a validation error, got {:?}", other),
    }
}

#[test]
fn identifier_accepts_grammar_and_round_trips() {
    for name in ["a", "users", "echoes_users", "schema.table", "A1_b.c", &"x".repeat(64)] {
        let id = Identifier::new(name.to_string()).unwrap();
        assert_eq!(id.as_str(), name);
    }
}

#[test]
fn identifier_rejects_outside_grammar() {
    for name in ["", "1abc", "_a", ".a", "a b", "a-b", "a;", "é", &"x".repeat(65)] {
        assert_eq!(
            Identifier::new(name.to_string()).unwrap_err(),
            SqlError::InvalidIdentifier(name.to_string())
        );
    }
}

#[test]
fn raw_accepts_everything() {
    let v = TextValidator::new();
    assert!(v.validate_raw("DROP TABLE x; --\n\0").is_ok());
    assert!(v.validate(&"z".repeat(200_000), ValidationLevel::Raw).is_ok());
}

#[test]
fn strict_rules() {
    let v = TextValidator::new();
    assert!(v.validate_strict("abc_123").is_ok());
    assert_eq!(failure(v.validate_strict("a-b")), ValidationFailure::InvalidChar);
    assert_eq!(failure(v.validate_strict("a b")), ValidationFailure::InvalidChar);
    assert!(v.validate_strict(&"a".repeat(100)).is_ok());
    assert_eq!(failure(v.validate_strict(&"a".repeat(101))), ValidationFailure::TooLong);
}

#[test]
fn standard_rules() {
    let v = TextValidator::new();
    assert!(v.validate_standard("Hello, world! ok? a-b_c.d: e").is_ok());
    assert_eq!(failure(v.validate_standard("a'b")), ValidationFailure::InvalidChar);
    assert_eq!(failure(v.validate_standard("a\nb")), ValidationFailure::InvalidChar);
    assert!(v.validate_standard(&"b".repeat(1000)).is_ok());
    assert_eq!(failure(v.validate_standard(&"b".repeat(1001))), ValidationFailure::TooLong);
}

#[test]
fn relaxed_denylist() {
    let v = TextValidator::new();
    assert!(v.validate_relaxed("it's a (free) text: {x} @ #1 / 50% & more").is_ok());
    for bad in ["drop", "x; DROP TABLE y", "union select", "a -- b", "/* c", "exec sp", "Waitfor delay", "benchmark(1)", "Truncate"] {
        assert_eq!(failure(v.validate_relaxed(bad)), ValidationFailure::SqlPattern, "{}", bad);
    }
}

#[test]
fn relaxed_length_boundary() {
    let v = TextValidator::new();
    assert!(v.validate_relaxed(&"a".repeat(100_000)).is_ok());
    assert_eq!(failure(v.validate_relaxed(&"a".repeat(100_001))), ValidationFailure::TooLong);
}

#[test]
fn relaxed_rejects_control_chars() {
    let v = TextValidator::new();
    assert_eq!(failure(v.validate_relaxed("line\nbreak")), ValidationFailure::ControlChar);
    assert_eq!(failure(v.validate_relaxed("tab\there")), ValidationFailure::ControlChar);
}

#[test]
fn length_counts_bytes() {
    let v = TextValidator::new();
    assert!(v.validate_strict(&"é".repeat(50)).is_ok());
    assert_eq!(failure(v.validate_strict(&"é".repeat(51))), ValidationFailure::TooLong);
}

#[test]
fn validation_error_carries_text_and_level() {
    let v = TextValidator::new();
    assert_eq!(
        v.validate("a b", ValidationLevel::Strict),
        Err(SqlError::Validation(ValidationFailure::InvalidChar, "a b".to_string(), ValidationLevel::Strict))
    );
}

#[test]
fn sanitize_doubles_quotes_and_backslashes() {
    let v = TextValidator::new();
    assert_eq!(v.sanitize("it's a\\b").unwrap(), "it''s a\\\\b");
    assert_eq!(v.sanitize("plain").unwrap(), "plain");
    assert!(v.sanitize("DROP it").is_err());
}

#[test]
fn validated_values() {
    assert!(ValidatedValue::new_identifier("abc_1".to_string()).is_ok());
    assert!(ValidatedValue::new_identifier("a.b".to_string()).is_err());
    assert!(ValidatedValue::new_identifier("1a".to_string()).is_err());
    assert!(ValidatedValue::new_rich_text("<p>Hello</p>".to_string()).is_ok());
    assert!(ValidatedValue::new_rich_text("x union all select y".to_string()).is_err());
    assert!(ValidatedValue::new_rich_text("a or 1=1".to_string()).is_err());
    assert!(ValidatedValue::new_plain_text("hello".to_string()).is_ok());
    assert!(ValidatedValue::new_plain_text("a;b".to_string()).is_err());
    assert!(ValidatedValue::new_plain_text("a--b".to_string()).is_err());
    assert_eq!(ValidatedValue::new_plain_text("hello".to_string()).unwrap().get(), "hello");
    assert_eq!(ValidatedValue::new_identifier("id".to_string()).unwrap().get(), "id");
}

#[test]
fn where_condition_checks() {
    assert!(WhereCondition::new("id".to_string(), Operator::Eq, Some("5".to_string())).is_ok());
    assert!(WhereCondition::new("id".to_string(), Operator::IsNull, None).is_ok());
    assert!(WhereCondition::new("i.d".to_string(), Operator::Eq, None).is_err());
    assert!(WhereCondition::new("id".to_string(), Operator::Eq, Some("1; drop".to_string())).is_err());
}

#[test]
fn custom_error_message() {
    assert_eq!(CustomError::from_str("boom").message(), "boom");
}

#[test]
fn str_into_custom_error() {
    assert_eq!("bad input".into_custom_error().message(), "bad input");
}

#[test]
fn scans_on_uppercased_text() {
    assert!(contains_sql_pattern("SELECT 1; DROP X"));
    assert!(!contains_sql_pattern("drop"));
    assert!(!contains_sql_pattern("HELLO WORLD"));
    assert!(contains_injection_phrase("A OR 1=1"));
    assert!(!contains_injection_phrase("or 1=1"));
}

#[test]
fn error_messages() {
    assert_eq!(ValidatedValue::new_plain_text("a;b".to_string()).unwrap_err().message(), "Invalid characters in text");
    assert_eq!(ValidatedValue::new_rich_text("x--y".to_string()).unwrap_err().message(), "Dangerous SQL phrase in text");
    assert_eq!(ValidatedValue::new_identifier("a.b".to_string()).unwrap_err().message(), "Invalid identifier format");
}

#[test]
fn ddl_check_uses_relaxed_rules() {
    let v = TextValidator::new();
    assert!(v.check_ddl_text("('a', 'b')").is_ok());
    assert_eq!(
        v.check_ddl_text("x union y"),
        Err(SqlError::Validation(ValidationFailure::SqlPattern, "x union y".to_string(), ValidationLevel::Relaxed))
    );
}
