use audio_service::error::ApiError;
use audio_service::keycloak::{
    admin_access_token, admin_token_status, new_user, refresh_status, register_status, token_status,
    KeycloakClient,
};

fn client() -> KeycloakClient {
    KeycloakClient {
        http: reqwest::Client::new(),
        base_url: "http://kc:8080".into(),
        realm: "demo".into(),
        client_id: "app".into(),
        client_secret: "shh".into(),
        admin_user: "admin".into(),
        admin_password: "pw".into(),
    }
}

fn pairs(form: Vec<(String, String)>) -> Vec<(String, String)> {
    form
}

fn expect(items: &[(&str, &str)]) -> Vec<(String, String)> {
    items.iter().map(|(a, b)| (a.to_string(), b.to_string())).collect()
}

#[test]
fn provider_urls() {
    let c = client();
    assert_eq!(c.admin_token_url(), "http://kc:8080/realms/master/protocol/openid-connect/token");
    assert_eq!(c.users_url(), "http://kc:8080/admin/realms/demo/users");
    assert_eq!(c.token_url(), "http://kc:8080/realms/demo/protocol/openid-connect/token");
}

#[test]
fn admin_form_uses_admin_cli() {
    assert_eq!(
        pairs(client().admin_token_form()),
        expect(&[("grant_type", "password"), ("client_id", "admin-cli"), ("username", "admin"), ("password", "pw")])
    );
}

#[test]
fn password_form_carries_client_and_user() {
    assert_eq!(
        pairs(client().password_grant_form("alice", "secret")),
        expect(&[
            ("grant_type", "password"),
            ("client_id", "app"),
            ("client_secret", "shh"),
            ("username", "alice"),
            ("password", "secret"),
        ])
    );
}

#[test]
fn refresh_form_carries_refresh_token() {
    assert_eq!(
        pairs(client().refresh_grant_form("rt")),
        expect(&[("grant_type", "refresh_token"), ("client_id", "app"), ("client_secret", "shh"), ("refresh_token", "rt")])
    );
}

#[test]
fn new_user_is_enabled_with_permanent_password() {
    let u = new_user("alice", "a@b.c", "pw123456");
    assert_eq!(u.username, "alice");
    assert_eq!(u.email, "a@b.c");
    assert!(u.enabled);
    assert!(u.email_verified);
    assert_eq!(u.credentials.len(), 1);
    assert_eq!(u.credentials[0].kind, "password");
    assert_eq!(u.credentials[0].value, "pw123456");
    assert!(!u.credentials[0].temporary);
}

#[test]
fn admin_status_needs_success() {
    assert_eq!(admin_token_status(200), Ok(()));
    assert_eq!(admin_token_status(299), Ok(()));
    assert_eq!(admin_token_status(300), Err(ApiError::InternalError));
    assert_eq!(admin_token_status(401), Err(ApiError::InternalError));
    assert_eq!(admin_token_status(199), Err(ApiError::InternalError));
}

#[test]
fn admin_token_must_be_present() {
    assert_eq!(admin_access_token(Some("tok".into())), Ok("tok".to_string()));
    assert_eq!(admin_access_token(None), Err(ApiError::InternalError));
}

#[test]
fn register_status_meanings() {
    assert_eq!(register_status(201), Ok(()));
    assert_eq!(
        register_status(409),
        Err(ApiError::InvalidInput("User with this username or email already exists".into()))
    );
    assert_eq!(register_status(200), Err(ApiError::InternalError));
    assert_eq!(register_status(500), Err(ApiError::InternalError));
}

#[test]
fn token_status_meanings() {
    assert_eq!(token_status(200), Ok(()));
    assert_eq!(token_status(401), Err(ApiError::InvalidInput("Invalid username or password".into())));
    assert_eq!(token_status(400), Err(ApiError::InternalError));
    assert_eq!(token_status(503), Err(ApiError::InternalError));
}

#[test]
fn refresh_status_meanings() {
    assert_eq!(refresh_status(204), Ok(()));
    assert_eq!(refresh_status(400), Err(ApiError::InvalidInput("Refresh token is expired or invalid".into())));
    assert_eq!(refresh_status(401), Err(ApiError::InternalError));
    assert_eq!(refresh_status(302), Err(ApiError::InternalError));
}
