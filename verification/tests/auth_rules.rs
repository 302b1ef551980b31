use audio_service::auth::{
    create_user, register_response, validate_refresh_request, validate_register, validate_token_request,
    CreateUserRequest, RefreshTokenRequest, RegisterRequest, TokenRequest,
};
use audio_service::error::ApiError;
use audio_service::oauth::Claims;

fn reg(username: &str, email: &str, password: &str) -> RegisterRequest {
    RegisterRequest { username: username.into(), email: email.into(), password: password.into() }
}

fn invalid(msg: &str) -> Result<(), ApiError> {
    Err(ApiError::InvalidInput(msg.to_string()))
}

#[test]
fn register_accepts_complete_request() {
    assert_eq!(validate_register(&reg("alice", "a@b.c", "12345678")), Ok(()));
}

#[test]
fn register_requires_username_first() {
    assert_eq!(validate_register(&reg("", "", "")), invalid("Username is required"));
}

#[test]
fn register_requires_email_with_at() {
    assert_eq!(validate_register(&reg("a", "", "12345678")), invalid("Valid email is required"));
    assert_eq!(validate_register(&reg("a", "no-at-sign", "12345678")), invalid("Valid email is required"));
    assert_eq!(validate_register(&reg("a", "@", "1")), invalid("Password must be at least 8 characters"));
}

#[test]
fn register_counts_password_bytes() {
    assert_eq!(validate_register(&reg("a", "a@b", "1234567")), invalid("Password must be at least 8 characters"));
    // four two-byte characters make eight bytes
    assert_eq!(validate_register(&reg("a", "a@b", "éééé")), Ok(()));
    assert_eq!(validate_register(&reg("a", "a@b", "ééé")), invalid("Password must be at least 8 characters"));
}

#[test]
fn register_response_message() {
    let r = register_response("alice".to_string());
    assert_eq!(r.message, "User registered successfully");
    assert_eq!(r.username, "alice");
}

#[test]
fn token_request_needs_both_fields() {
    let ok = TokenRequest { username: "a".into(), password: "p".into() };
    assert_eq!(validate_token_request(&ok), Ok(()));
    for (u, p) in [("", "p"), ("a", ""), ("", "")] {
        let req = TokenRequest { username: u.into(), password: p.into() };
        assert_eq!(validate_token_request(&req), invalid("Username and password are required"));
    }
}

#[test]
fn refresh_request_needs_token() {
    assert_eq!(validate_refresh_request(&RefreshTokenRequest { refresh_token: "t".into() }), Ok(()));
    assert_eq!(
        validate_refresh_request(&RefreshTokenRequest { refresh_token: "".into() }),
        invalid("refresh_token is required")
    );
}

fn claims(preferred: Option<&str>) -> Claims {
    Claims {
        sub: "sub-123".into(),
        email: None,
        preferred_username: preferred.map(|s| s.to_string()),
        exp: 0,
        iat: 0,
    }
}

#[test]
fn create_user_names_creator() {
    let r = create_user(&claims(Some("alice")), &CreateUserRequest { name: "Bob".into() }).ok().unwrap();
    assert_eq!(r.message, "User Bob created by alice");
}

#[test]
fn create_user_falls_back_to_subject() {
    let r = create_user(&claims(None), &CreateUserRequest { name: "Bob".into() }).ok().unwrap();
    assert_eq!(r.message, "User Bob created by sub-123");
}

#[test]
fn create_user_requires_name() {
    let e = create_user(&claims(None), &CreateUserRequest { name: "".into() }).err();
    assert_eq!(e, Some(ApiError::InvalidInput("Name is required".to_string())));
}
