use angular_rs::{Field, FieldError, HandlerError, InvalidField, User};

fn user(name: &str, password: &str) -> User {
    User { id: None, name: name.to_string(), password: password.to_string() }
}

fn field(field: Field, error: FieldError) -> InvalidField {
    InvalidField { field, error }
}

#[test]
fn short_name_is_too_short() {
    let errs = user("al", "longpassword").validate(false);
    assert_eq!(errs, vec![field(Field::Name, FieldError::TooShort)]);
}

#[test]
fn empty_name_and_password_report_both() {
    let errs = user("", "").validate(false);
    assert_eq!(
        errs,
        vec![field(Field::Name, FieldError::TooShort), field(Field::Password, FieldError::TooShort)]
    );
}

#[test]
fn long_name_is_too_long() {
    let name = "a".repeat(51);
    let errs = user(&name, "longpassword").validate(false);
    assert_eq!(errs, vec![field(Field::Name, FieldError::TooLong)]);
}

#[test]
fn name_length_bounds_are_inclusive() {
    assert!(user("abc", "longpassword").validate(false).is_empty());
    assert!(user(&"a".repeat(50), "longpassword").validate(false).is_empty());
    assert!(user("abc", "x").name_length_ok());
    assert!(!user("ab", "x").name_length_ok());
    assert!(!user(&"a".repeat(51), "x").name_length_ok());
}

#[test]
fn name_length_counts_characters() {
    // three characters, six bytes
    assert!(user("äöü", "longpassword").validate(false).is_empty());
    // fifty characters, a hundred bytes
    assert!(user(&"é".repeat(50), "longpassword").validate(false).is_empty());
}

#[test]
fn short_password_is_too_short() {
    let errs = user("alice", "1234567").validate(false);
    assert_eq!(errs, vec![field(Field::Password, FieldError::TooShort)]);
    assert!(user("alice", "12345678").validate(false).is_empty());
}

#[test]
fn taken_name_is_duplicate() {
    let errs = user("alice", "longpassword").validate(true);
    assert_eq!(errs, vec![field(Field::Name, FieldError::Duplicate)]);
}

#[test]
fn taken_name_of_wrong_length_is_not_duplicate() {
    let errs = user("al", "short").validate(true);
    assert_eq!(
        errs,
        vec![field(Field::Name, FieldError::TooShort), field(Field::Password, FieldError::TooShort)]
    );
}

#[test]
fn create_refuses_invalid_request() {
    match user("al", "longpassword").create(false) {
        Err(HandlerError::InvalidFields(errs)) => {
            assert_eq!(errs, vec![field(Field::Name, FieldError::TooShort)])
        }
        other => panic!("unexpected {:?}", other),
    }
    match user("alice", "longpassword").create(true) {
        Err(e) => {
            assert_eq!(e.status(), 400);
            assert!(matches!(e, HandlerError::InvalidFields(_)));
        }
        Ok(_) => panic!("a taken name was accepted"),
    }
}

#[test]
fn create_hashes_the_password() {
    let hash = user("alice", "longpassword").create(false).unwrap();
    assert_ne!(hash, "longpassword");
    assert!(hash.starts_with("$argon2"));
}

#[test]
fn inserted_id_is_recorded() {
    let mut u = user("alice", "longpassword");
    assert!(u.set_inserted_id(7).is_ok());
    assert_eq!(u.id, Some(7));
    assert!(u.set_inserted_id(2147483647).is_ok());
    assert_eq!(u.id, Some(i32::MAX));
}

#[test]
fn inserted_id_too_large_is_refused() {
    let mut u = user("alice", "longpassword");
    let r = u.set_inserted_id(2147483648);
    assert!(matches!(r, Err(HandlerError::TryFromError)));
    assert_eq!(u.id, None);
    assert_eq!(u.name, "alice");
}

#[test]
fn field_names() {
    assert_eq!(Field::Name.as_str(), "name");
    assert_eq!(Field::Password.as_str(), "password");
    assert_eq!(FieldError::Duplicate.as_str(), "duplicate");
    assert_eq!(FieldError::TooLong.as_str(), "too_long");
    assert_eq!(FieldError::TooShort.as_str(), "too_short");
}
