//! Checks on registration, login, token refresh and profile requests.

use vstd::prelude::*;
use vstd::string::*;
use vstd::utf8::encode_utf8;

use crate::error::ApiError;
use crate::oauth::Claims;
use crate::text::{contains_char, join2};

verus! {

/// A sign-up request.
pub struct RegisterRequest {
    pub username: String,
    pub email: String,
    pub password: String,
}

/// The answer to an accepted sign-up.
pub struct RegisterResponse {
    pub message: String,
    pub username: String,
}

/// A password login request.
pub struct TokenRequest {
    pub username: String,
    pub password: String,
}

/// A request to trade a refresh token for new tokens.
pub struct RefreshTokenRequest {
    pub refresh_token: String,
}

/// A request to create a user profile.
pub struct CreateUserRequest {
    pub name: String,
}

/// The answer to a created profile.
pub struct CreateUserResponse {
    pub message: String,
}

/// Why a sign-up request is refused, checked in this order; none when it is
/// accepted. The password is measured in UTF-8 bytes, the count that
/// `str::len` reports.
pub open spec fn register_problem(username: Seq<char>, email: Seq<char>, password: Seq<char>) -> Option<Seq<char>> {
    if username.len() == 0 {
        Some("Username is required"@)
    } else if email.len() == 0 || !email.contains('@') {
        Some("Valid email is required"@)
    } else if encode_utf8(password).len() < 8 {
        Some("Password must be at least 8 characters"@)
    } else {
        None
    }
}

/// With a username and an e-mail holding `@`, the password decides alone: a
/// password of at least 8 UTF-8 bytes is accepted and a shorter one is
/// refused as too short; so lengthening an accepted password keeps it
/// accepted.
pub proof fn law_password_is_a_lower_bound(
    username: Seq<char>,
    email: Seq<char>,
    password: Seq<char>,
    longer: Seq<char>,
)
    requires
        username.len() > 0,
        email.contains('@'),
    ensures
        encode_utf8(password).len() >= 8 ==> register_problem(username, email, password) is None,
        encode_utf8(password).len() < 8 ==> register_problem(username, email, password) == Some(
            "Password must be at least 8 characters"@,
        ),
        register_problem(username, email, password) is None && encode_utf8(password).len()
            <= encode_utf8(longer).len() ==> register_problem(username, email, longer) is None,
{
}

/// The username is checked first and the e-mail next: an empty username is
/// refused as such whatever else holds, and with a username an e-mail that
/// is empty or lacks `@` is refused as such whatever the password.
pub proof fn law_register_check_order(username: Seq<char>, email: Seq<char>, password: Seq<char>)
    ensures
        username.len() == 0 ==> register_problem(username, email, password) == Some(
            "Username is required"@,
        ),
        username.len() > 0 && !email.contains('@') ==> register_problem(username, email, password)
            == Some("Valid email is required"@),
        register_problem(username, email, password) is None ==> username.len() > 0
            && email.contains('@') && encode_utf8(password).len() >= 8,
{
    if email.len() == 0 {
        assert(!email.contains('@'));
    }
}

/// A login is refused exactly when a field is empty.
pub proof fn law_login_needs_both_fields(username: Seq<char>, password: Seq<char>)
    ensures
        token_problem(username, password) is None <==> username.len() > 0 && password.len() > 0,
{
}

/// The creator is named by login name when the token carries one, else by
/// subject id.
pub proof fn law_display_name_prefers_login_name(claims: Claims)
    ensures
        claims.preferred_username matches Some(u) ==> display_name(claims) == u@,
        claims.preferred_username is None ==> display_name(claims) == claims.sub@,
{
}

/// The outcome that a refusal reason, or its absence, stands for.
pub open spec fn refused_with(r: Result<(), ApiError>, problem: Option<Seq<char>>) -> bool {
    match problem {
        Some(m) => r matches Err(e) && e.is_invalid_input(m),
        None => r is Ok,
    }
}

/// Checks a sign-up request before it goes to the identity provider.
pub fn validate_register(req: &RegisterRequest) -> (r: Result<(), ApiError>)
    ensures
        refused_with(r, register_problem(req.username@, req.email@, req.password@)),
{
    if req.username.as_str().is_empty() {
        return Err(ApiError::invalid_input("Username is required"));
    }
    if req.email.as_str().is_empty() || !contains_char(req.email.as_str(), '@') {
        return Err(ApiError::invalid_input("Valid email is required"));
    }
    if req.password.as_str().as_bytes().len() < 8 {
        return Err(ApiError::invalid_input("Password must be at least 8 characters"));
    }
    Ok(())
}

/// The answer to a sign-up that the identity provider accepted.
pub fn register_response(username: String) -> (r: RegisterResponse)
    ensures
        r.message@ == "User registered successfully"@,
        r.username@ == username@,
{
    RegisterResponse { message: String::from_str("User registered successfully"), username }
}

/// Why a login request is refused; none when it is accepted.
pub open spec fn token_problem(username: Seq<char>, password: Seq<char>) -> Option<Seq<char>> {
    if username.len() == 0 || password.len() == 0 {
        Some("Username and password are required"@)
    } else {
        None
    }
}

/// Checks a login request before it goes to the identity provider.
pub fn validate_token_request(req: &TokenRequest) -> (r: Result<(), ApiError>)
    ensures
        refused_with(r, token_problem(req.username@, req.password@)),
{
    if req.username.as_str().is_empty() || req.password.as_str().is_empty() {
        return Err(ApiError::invalid_input("Username and password are required"));
    }
    Ok(())
}

/// Checks a refresh request before it goes to the identity provider: the
/// refresh token must not be empty.
pub fn validate_refresh_request(req: &RefreshTokenRequest) -> (r: Result<(), ApiError>)
    ensures
        refused_with(
            r,
            if req.refresh_token@.len() == 0 {
                Some("refresh_token is required"@)
            } else {
                None
            },
        ),
{
    if req.refresh_token.as_str().is_empty() {
        return Err(ApiError::invalid_input("refresh_token is required"));
    }
    Ok(())
}

/// The name a caller is known by: the login name, or the subject id when the
/// token carries none.
pub open spec fn display_name(claims: Claims) -> Seq<char> {
    match claims.preferred_username {
        Some(u) => u@,
        None => claims.sub@,
    }
}

/// Creates a profile for the authenticated caller: the name must not be
/// empty, and the answer says who created whom.
pub fn create_user(claims: &Claims, payload: &CreateUserRequest) -> (r: Result<CreateUserResponse, ApiError>)
    ensures
        payload.name@.len() == 0 ==> (r matches Err(e) && e.is_invalid_input("Name is required"@)),
        payload.name@.len() != 0 ==> (r matches Ok(resp) && resp.message@ == "User "@
            + payload.name@ + " created by "@ + display_name(*claims)),
{
    if payload.name.as_str().is_empty() {
        return Err(ApiError::invalid_input("Name is required"));
    }
    let username = match &claims.preferred_username {
        Some(u) => u.as_str(),
        None => claims.sub.as_str(),
    };
    let mut message = join2("User ", payload.name.as_str());
    message.append(" created by ");
    message.append(username);
    Ok(CreateUserResponse { message })
}

} // verus!
