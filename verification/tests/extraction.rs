use flat_config::{ConfigError, FlatValue, TryUnwrap};

fn mismatch_of<T: std::fmt::Debug>(outcome: Result<T, ConfigError>) -> (String, String) {
    match outcome {
        Err(ConfigError::TypeMismatch { expected, present }) => (expected, present),
        other => panic!("expected a type mismatch, got {other:?}"),
    }
}

fn names(expected: &str, present: &str) -> (String, String) {
    (expected.to_string(), present.to_string())
}

#[test]
fn kind_names() {
    assert_eq!("integer", FlatValue::Integer(-3).display());
    assert_eq!("text", FlatValue::Text(String::new()).display());
    assert_eq!("boolean", FlatValue::Boolean(false).display());
}

#[test]
fn integer_is_no_text_and_no_boolean() {
    let value = FlatValue::Integer(1);

    let as_text: Result<String, ConfigError> = value.try_unwrap();
    assert_eq!(names("text", "integer"), mismatch_of(as_text));
    let as_bool: Result<bool, ConfigError> = value.try_unwrap();
    assert_eq!(names("boolean", "integer"), mismatch_of(as_bool));
}

#[test]
fn text_is_no_integer_and_no_boolean() {
    let value = FlatValue::Text("1".to_string());

    let as_integer: Result<isize, ConfigError> = value.try_unwrap();
    assert_eq!(names("integer", "text"), mismatch_of(as_integer));
    let as_bool: Result<bool, ConfigError> = value.try_unwrap();
    assert_eq!(names("boolean", "text"), mismatch_of(as_bool));
}

#[test]
fn boolean_is_no_integer_and_no_text() {
    let value = FlatValue::Boolean(true);

    let as_integer: Result<isize, ConfigError> = value.try_unwrap();
    assert_eq!(names("integer", "boolean"), mismatch_of(as_integer));
    let as_text: Result<String, ConfigError> = value.try_unwrap();
    assert_eq!(names("text", "boolean"), mismatch_of(as_text));
}

#[test]
fn extraction_keeps_the_payload() {
    let smallest: isize = FlatValue::Integer(isize::MIN).try_unwrap().unwrap();
    assert_eq!(isize::MIN, smallest);
    let largest: isize = FlatValue::Integer(isize::MAX).try_unwrap().unwrap();
    assert_eq!(isize::MAX, largest);
    let empty: String = FlatValue::Text(String::new()).try_unwrap().unwrap();
    assert_eq!("", empty);
    let no: bool = FlatValue::Boolean(false).try_unwrap().unwrap();
    assert!(!no);
}

#[test]
fn values_compare_by_kind_and_payload() {
    assert_eq!(FlatValue::Integer(1), FlatValue::Integer(1));
    assert_ne!(FlatValue::Integer(1), FlatValue::Integer(2));
    assert_ne!(FlatValue::Integer(1), FlatValue::Boolean(true));
    assert_ne!(FlatValue::Integer(1), FlatValue::Text("1".to_string()));
    assert_eq!(FlatValue::from("a"), FlatValue::Text("a".to_string()));
    assert_ne!(FlatValue::from("a"), FlatValue::from("b"));
    assert_ne!(FlatValue::Boolean(true), FlatValue::Boolean(false));
}

#[test]
fn clone_is_equal() {
    let text = FlatValue::Text("copy me".to_string());

    assert_eq!(text, text.clone());
    assert_eq!(FlatValue::Integer(5), FlatValue::Integer(5).clone());
    assert_eq!(FlatValue::Boolean(true), FlatValue::Boolean(true).clone());
}

#[test]
fn missing_message() {
    let error = ConfigError::Missing("database_dir".to_string());

    assert_eq!(
        "CONFIGURATION ERROR: Field 'database_dir' is missing.",
        error.message()
    );
}

#[test]
fn type_mismatch_message() {
    let outcome: Result<isize, ConfigError> = FlatValue::Boolean(true).try_unwrap();

    assert_eq!(
        "CONFIGURATION ERROR: Type mismatch, expected 'integer' got 'boolean'.",
        outcome.unwrap_err().message()
    );
}

#[test]
fn incorrect_value_message() {
    let error = ConfigError::IncorrectValue("verbose_level is negative".to_string());

    assert_eq!(
        "CONFIGURATION ERROR: Incorrect value: verbose_level is negative.",
        error.message()
    );
}
