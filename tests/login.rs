use angular_rs::handlers::{CREATED, NO_CONTENT, OK, UNAUTHORIZED};
use angular_rs::{
    authenticate, login, session_expiry, Credentials, HandlerError, SessionExpiry, User,
};

fn creds(name: &str, password: &str) -> Credentials {
    Credentials { name: name.to_string(), password: password.to_string() }
}

#[test]
fn register_then_login() {
    let request = User { id: None, name: "alice".to_string(), password: "longpassword".to_string() };
    assert!(request.name_length_ok());
    let hash = request.create(false).unwrap();
    let stored = User { id: Some(1), name: "alice".to_string(), password: hash };

    let wrong = authenticate(Some(stored.clone()), &creds("alice", "wrong"));
    assert!(wrong.is_none());
    match login(wrong) {
        Err(denied) => assert_eq!(denied.status(), 401),
        Ok(_) => panic!("a wrong password logged in"),
    }

    let right = authenticate(Some(stored), &creds("alice", "longpassword"));
    let user = login(right).unwrap();
    assert_eq!(user.name, "alice");
    assert_eq!(user.id, Some(1));
    assert_eq!(user.id(), "alice");
}

#[test]
fn unknown_user_is_unauthorized() {
    let r = login(authenticate(None, &creds("nobody", "longpassword")));
    assert!(matches!(r, Err(HandlerError::AnyError(401))));
}

#[test]
fn plaintext_stored_password_does_not_verify() {
    let stored = User { id: Some(2), name: "bob".to_string(), password: "longpassword".to_string() };
    assert!(authenticate(Some(stored), &creds("bob", "longpassword")).is_none());
}

#[test]
fn session_check_is_the_stored_hash() {
    let stored = User { id: Some(3), name: "carol".to_string(), password: "$argon2id$x".to_string() };
    assert_eq!(stored.session_auth_hash(), b"$argon2id$x");
    let rotated = User { password: "$argon2id$y".to_string(), ..stored.clone() };
    assert_ne!(stored.session_auth_hash(), rotated.session_auth_hash());
}

#[test]
fn expiry_positive_hours_is_inactivity() {
    assert_eq!(session_expiry(1), SessionExpiry::OnInactivity(3600));
    assert_eq!(session_expiry(24), SessionExpiry::OnInactivity(86400));
    let largest = i64::MAX / 3600;
    assert_eq!(session_expiry(largest), SessionExpiry::OnInactivity(largest * 3600));
}

#[test]
fn expiry_zero_is_session_end() {
    assert_eq!(session_expiry(0), SessionExpiry::OnSessionEnd);
    assert_eq!(session_expiry(-5), SessionExpiry::OnSessionEnd);
}

#[test]
fn handler_statuses() {
    assert_eq!((CREATED, OK, NO_CONTENT, UNAUTHORIZED), (201, 200, 204, 401));
}
