use serial_validator::{SerialStore, ValidationError, validate_serial};

fn store_with_serial1() -> SerialStore {
    let mut store = SerialStore::new();
    store.record("serial1");
    store
}

#[test]
fn validation_result_for_invalid_length() {
    let test_serial = "i234";
    let validation_result = validate_serial(test_serial, &store_with_serial1());
    assert_eq!(false, validation_result.is_valid);
    assert_eq!(
        true,
        validation_result.errors.contains(&String::from("invalid_format"))
    )
}

#[test]
fn validation_result_for_invalid_characters() {
    let test_serial = "i234@";
    let validation_result = validate_serial(test_serial, &store_with_serial1());
    assert_eq!(false, validation_result.is_valid);
    assert_eq!(
        true,
        validation_result.errors.contains(&String::from("invalid_format"))
    )
}

#[test]
fn validation_result_for_already_existing_serial() {
    let test_serial = "serial1";
    let validation_result = validate_serial(test_serial, &store_with_serial1());
    assert_eq!(false, validation_result.is_valid);
    assert_eq!(
        true,
        validation_result.errors.contains(&String::from("already_exists"))
    )
}

#[test]
fn validation_result_for_valid_serial() {
    let test_serial = "a12345bbc";
    let validation_result = validate_serial(test_serial, &store_with_serial1());
    assert_eq!(true, validation_result.is_valid);
    assert_eq!(true, validation_result.errors.is_empty())
}

#[test]
fn error_code_values_are_stable() {
    assert_eq!("invalid_format", ValidationError::InvalidFormat.value());
    assert_eq!("already_exists", ValidationError::AlreadyExists.value());
}

#[test]
fn too_short_serial_with_symbol_reports_invalid_format_twice() {
    let validation_result = validate_serial("a!", &store_with_serial1());
    assert_eq!(false, validation_result.is_valid);
    assert_eq!(
        vec![String::from("invalid_format"), String::from("invalid_format")],
        validation_result.errors
    );
}

#[test]
fn validation_is_idempotent_for_unchanged_store() {
    let store = store_with_serial1();
    for serial in ["i234", "i234@", "serial1", "a12345bbc", "s!", ""] {
        let first = validate_serial(serial, &store);
        let second = validate_serial(serial, &store);
        assert_eq!(first, second);
    }
}

#[test]
fn empty_serial_is_rejected_for_length_alone() {
    let validation_result = validate_serial("", &store_with_serial1());
    assert_eq!(false, validation_result.is_valid);
    assert_eq!(vec![String::from("invalid_format")], validation_result.errors);
}

#[test]
fn stored_unicode_serial_collects_only_already_exists() {
    let mut store = SerialStore::new();
    store.record("абвгдежзийюя1234");
    let validation_result = validate_serial("абвгдежзийюя1234", &store);
    assert_eq!(false, validation_result.is_valid);
    assert_eq!(vec![String::from("already_exists")], validation_result.errors);
}

#[test]
fn scenario_too_short_alphanumeric() {
    let validation_result = validate_serial("i234", &store_with_serial1());
    assert_eq!(false, validation_result.is_valid);
    assert_eq!(vec![String::from("invalid_format")], validation_result.errors);
}

#[test]
fn scenario_too_short_with_symbol() {
    let validation_result = validate_serial("i234@", &store_with_serial1());
    assert_eq!(false, validation_result.is_valid);
    assert_eq!(
        vec![String::from("invalid_format"), String::from("invalid_format")],
        validation_result.errors
    );
}

#[test]
fn scenario_existing_serial() {
    let validation_result = validate_serial("serial1", &store_with_serial1());
    assert_eq!(false, validation_result.is_valid);
    assert_eq!(vec![String::from("already_exists")], validation_result.errors);
}

#[test]
fn scenario_fresh_alphanumeric_serial() {
    let validation_result = validate_serial("a12345bbc", &store_with_serial1());
    assert_eq!(true, validation_result.is_valid);
    assert_eq!(Vec::<String>::new(), validation_result.errors);
}

#[test]
fn scenario_fresh_unicode_serial() {
    let validation_result = validate_serial("абвгдежзийюя1234", &store_with_serial1());
    assert_eq!(true, validation_result.is_valid);
    assert_eq!(Vec::<String>::new(), validation_result.errors);
}
