use shiny_rs::{InputError, InputPool, InputValue};

#[test]
fn it_works() {
    let result = 2 + 2;
    assert_eq!(result, 4);
}

#[test]
fn different_value_after_init_is_a_change() {
    let mut pool = InputPool::new();
    pool.insert("k", InputValue::Str("one".to_string()));
    assert!(pool.check_change("k", InputValue::Str("two".to_string())));
    assert_eq!(pool.get_string("k"), Ok("two".to_string()));
}

#[test]
fn same_value_twice_is_no_change() {
    let mut pool = InputPool::new();
    assert!(pool.check_change("k", InputValue::Integer(3)));
    assert!(!pool.check_change("k", InputValue::Integer(3)));
    assert_eq!(pool.get_i64("k"), Ok(3));
}

#[test]
fn null_on_absent_key_is_no_change() {
    let mut pool = InputPool::new();
    assert!(!pool.check_change("k", InputValue::Null));
    assert!(!pool.contains("k"));
}

#[test]
fn value_on_absent_key_is_a_change() {
    let mut pool = InputPool::new();
    assert!(pool.check_change("k", InputValue::Bool(true)));
    assert!(pool.contains("k"));
    assert!(matches!(pool.get("k"), Ok(InputValue::Bool(true))));
}

#[test]
fn null_after_value_is_a_change() {
    let mut pool = InputPool::new();
    pool.insert("k", InputValue::Integer(1));
    assert!(pool.check_change("k", InputValue::Null));
    assert!(matches!(pool.get("k"), Ok(InputValue::Null)));
    assert!(!pool.check_change("k", InputValue::Null));
}

#[test]
fn stored_null_then_value_is_a_change() {
    let mut pool = InputPool::new();
    pool.insert("k", InputValue::Null);
    assert!(pool.check_change("k", InputValue::Integer(0)));
}

#[test]
fn integer_and_float_differ() {
    let mut pool = InputPool::new();
    pool.insert("k", InputValue::Integer(1));
    assert!(pool.check_change("k", InputValue::Float(1.0f64.to_bits())));
    assert_eq!(pool.get_i64("k"), Err(InputError::TypeMismatch));
}

#[test]
fn structured_values_compare_by_text() {
    let mut pool = InputPool::new();
    pool.insert("k", InputValue::Array("[1,2]".to_string()));
    assert!(!pool.check_change("k", InputValue::Array("[1,2]".to_string())));
    assert!(pool.check_change("k", InputValue::Object("[1,2]".to_string())));
    assert!(pool.check_change("k", InputValue::Object("{\"a\":1}".to_string())));
}

#[test]
fn typed_getter_round_trip() {
    let mut pool = InputPool::new();
    pool.insert("n", InputValue::Integer(-42));
    assert_eq!(pool.get_i64("n"), Ok(-42));
    assert_eq!(pool.get_string("n"), Err(InputError::TypeMismatch));
    assert_eq!(pool.get_u64("n"), Err(InputError::TypeMismatch));
}

#[test]
fn get_u64_reads_the_largest_value() {
    let mut pool = InputPool::new();
    pool.insert("n", InputValue::Integer(u64::MAX as i128));
    assert_eq!(pool.get_u64("n"), Ok(u64::MAX));
    assert_eq!(pool.get_i64("n"), Err(InputError::TypeMismatch));
}

#[test]
fn missing_key_is_not_found() {
    let pool = InputPool::default();
    assert_eq!(pool.get_string("nope"), Err(InputError::NotFound));
    assert_eq!(pool.get_u64("nope"), Err(InputError::NotFound));
    assert_eq!(pool.get_i64("nope"), Err(InputError::NotFound));
    assert!(pool.get("nope").is_err());
}

#[test]
fn insert_overwrites() {
    let mut pool = InputPool::new();
    pool.insert("a", InputValue::Str("x".to_string()));
    pool.insert("b", InputValue::Integer(2));
    pool.insert("a", InputValue::Str("y".to_string()));
    assert_eq!(pool.get_string("a"), Ok("y".to_string()));
    assert_eq!(pool.get_u64("b"), Ok(2));
}

#[test]
fn same_as_is_structural() {
    assert!(InputValue::Str("a".to_string()).same_as(&InputValue::Str("a".to_string())));
    assert!(!InputValue::Str("a".to_string()).same_as(&InputValue::Array("a".to_string())));
    assert!(InputValue::Null.same_as(&InputValue::Null));
    assert!(!InputValue::Bool(true).same_as(&InputValue::Bool(false)));
}
