//! Talking to the identity provider: where each request goes, what form it
//! carries, and what each answer's status means.

use vstd::prelude::*;
use vstd::string::*;

use crate::error::ApiError;
use crate::text::{join2, join3};

verus! {

#[verifier::external_type_specification]
#[verifier::external_body]
pub struct ExHttpClient(reqwest::Client);

/// How to reach the identity provider's realm and its admin account, and
/// the HTTP client that carries the requests.
pub struct KeycloakClient {
    pub http: reqwest::Client,
    pub base_url: String,
    pub realm: String,
    pub client_id: String,
    pub client_secret: String,
    pub admin_user: String,
    pub admin_password: String,
}

/// A password credential in a user-creation request.
pub struct UserCredential {
    /// The credential type; always "password".
    pub kind: String,
    pub value: String,
    pub temporary: bool,
}

/// The user representation sent to create a user.
pub struct NewUser {
    pub username: String,
    pub email: String,
    pub enabled: bool,
    pub email_verified: bool,
    pub credentials: Vec<UserCredential>,
}

/// A form field as a pair of views.
pub open spec fn field_view(f: (String, String)) -> (Seq<char>, Seq<char>) {
    (f.0@, f.1@)
}

/// The views of a list of form fields.
pub open spec fn form_view(form: Seq<(String, String)>) -> Seq<(Seq<char>, Seq<char>)> {
    form.map_values(|f: (String, String)| field_view(f))
}

/// A 2xx status.
pub open spec fn is_success(status: u16) -> bool {
    200 <= status <= 299
}

fn field(name: &str, value: &str) -> (f: (String, String))
    ensures
        f.0@ == name@,
        f.1@ == value@,
{
    (String::from_str(name), String::from_str(value))
}

impl KeycloakClient {
    /// Where the admin account logs in (always the master realm).
    pub fn admin_token_url(&self) -> (r: String)
        ensures
            r@ == self.base_url@ + "/realms/master/protocol/openid-connect/token"@,
    {
        join2(self.base_url.as_str(), "/realms/master/protocol/openid-connect/token")
    }

    /// Where users of the realm are created.
    pub fn users_url(&self) -> (r: String)
        ensures
            r@ == self.base_url@ + "/admin/realms/"@ + self.realm@ + "/users"@,
    {
        let mut r = join3(self.base_url.as_str(), "/admin/realms/", self.realm.as_str());
        r.append("/users");
        r
    }

    /// Where users of the realm log in and refresh their tokens.
    pub fn token_url(&self) -> (r: String)
        ensures
            r@ == self.base_url@ + "/realms/"@ + self.realm@ + "/protocol/openid-connect/token"@,
    {
        let mut r = join3(self.base_url.as_str(), "/realms/", self.realm.as_str());
        r.append("/protocol/openid-connect/token");
        r
    }

    /// The form by which the admin account logs in through `admin-cli`.
    pub fn admin_token_form(&self) -> (r: Vec<(String, String)>)
        ensures
            form_view(r@) == seq![
                ("grant_type"@, "password"@),
                ("client_id"@, "admin-cli"@),
                ("username"@, self.admin_user@),
                ("password"@, self.admin_password@),
            ],
    {
        let mut r = Vec::new();
        r.push(field("grant_type", "password"));
        r.push(field("client_id", "admin-cli"));
        r.push(field("username", self.admin_user.as_str()));
        r.push(field("password", self.admin_password.as_str()));
        assert(form_view(r@) =~= seq![
            ("grant_type"@, "password"@),
            ("client_id"@, "admin-cli"@),
            ("username"@, self.admin_user@),
            ("password"@, self.admin_password@),
        ]);
        r
    }

    /// The form by which a user logs in with a password.
    pub fn password_grant_form(&self, username: &str, password: &str) -> (r: Vec<(String, String)>)
        ensures
            form_view(r@) == seq![
                ("grant_type"@, "password"@),
                ("client_id"@, self.client_id@),
                ("client_secret"@, self.client_secret@),
                ("username"@, username@),
                ("password"@, password@),
            ],
    {
        let mut r = Vec::new();
        r.push(field("grant_type", "password"));
        r.push(field("client_id", self.client_id.as_str()));
        r.push(field("client_secret", self.client_secret.as_str()));
        r.push(field("username", username));
        r.push(field("password", password));
        assert(form_view(r@) =~= seq![
            ("grant_type"@, "password"@),
            ("client_id"@, self.client_id@),
            ("client_secret"@, self.client_secret@),
            ("username"@, username@),
            ("password"@, password@),
        ]);
        r
    }

    /// The form by which a refresh token is traded for new tokens.
    pub fn refresh_grant_form(&self, refresh_token: &str) -> (r: Vec<(String, String)>)
        ensures
            form_view(r@) == seq![
                ("grant_type"@, "refresh_token"@),
                ("client_id"@, self.client_id@),
                ("client_secret"@, self.client_secret@),
                ("refresh_token"@, refresh_token@),
            ],
    {
        let mut r = Vec::new();
        r.push(field("grant_type", "refresh_token"));
        r.push(field("client_id", self.client_id.as_str()));
        r.push(field("client_secret", self.client_secret.as_str()));
        r.push(field("refresh_token", refresh_token));
        assert(form_view(r@) =~= seq![
            ("grant_type"@, "refresh_token"@),
            ("client_id"@, self.client_id@),
            ("client_secret"@, self.client_secret@),
            ("refresh_token"@, refresh_token@),
        ]);
        r
    }
}

/// The user to create for a sign-up: enabled, e-mail verified, with the
/// password as its one permanent password credential.
pub fn new_user(username: &str, email: &str, password: &str) -> (r: NewUser)
    ensures
        r.username@ == username@,
        r.email@ == email@,
        r.enabled,
        r.email_verified,
        r.credentials@.len() == 1,
        r.credentials@[0].kind@ == "password"@,
        r.credentials@[0].value@ == password@,
        !r.credentials@[0].temporary,
{
    let mut credentials = Vec::new();
    credentials.push(
        UserCredential {
            kind: String::from_str("password"),
            value: String::from_str(password),
            temporary: false,
        },
    );
    NewUser {
        username: String::from_str(username),
        email: String::from_str(email),
        enabled: true,
        email_verified: true,
        credentials,
    }
}

/// What the status of the admin login answer means: a 2xx answer carries
/// the admin token, anything else is a server-side failure.
pub fn admin_token_status(status: u16) -> (r: Result<(), ApiError>)
    ensures
        is_success(status) ==> r is Ok,
        !is_success(status) ==> r == Err::<(), ApiError>(ApiError::InternalError),
{
    if 200 <= status && status <= 299 {
        Ok(())
    } else {
        Err(ApiError::InternalError)
    }
}

/// The admin token out of a 2xx admin login answer: the body's
/// `access_token` text, which must be there.
pub fn admin_access_token(access_token: Option<String>) -> (r: Result<String, ApiError>)
    ensures
        match access_token {
            Some(t) => r == Ok::<String, ApiError>(t),
            None => r == Err::<String, ApiError>(ApiError::InternalError),
        },
{
    match access_token {
        Some(t) => Ok(t),
        None => Err(ApiError::InternalError),
    }
}

/// What the status of a user-creation answer means: 201 is success, 409 a
/// taken username or e-mail, anything else a server-side failure.
pub fn register_status(status: u16) -> (r: Result<(), ApiError>)
    ensures
        status == 201 ==> r is Ok,
        status == 409 ==> (r matches Err(e) && e.is_invalid_input(
            "User with this username or email already exists"@,
        )),
        status != 201 && status != 409 ==> r == Err::<(), ApiError>(ApiError::InternalError),
{
    if status == 201 {
        Ok(())
    } else if status == 409 {
        Err(ApiError::invalid_input("User with this username or email already exists"))
    } else {
        Err(ApiError::InternalError)
    }
}

/// What the status of a password login answer means: 401 is a wrong
/// username or password, another non-2xx status a server-side failure, and a
/// 2xx answer carries the tokens.
pub fn token_status(status: u16) -> (r: Result<(), ApiError>)
    ensures
        status == 401 ==> (r matches Err(e) && e.is_invalid_input("Invalid username or password"@)),
        status != 401 && !is_success(status) ==> r == Err::<(), ApiError>(ApiError::InternalError),
        is_success(status) ==> r is Ok,
{
    if status == 401 {
        Err(ApiError::invalid_input("Invalid username or password"))
    } else if !(200 <= status && status <= 299) {
        Err(ApiError::InternalError)
    } else {
        Ok(())
    }
}

/// What the status of a refresh answer means: 400 is an expired or invalid
/// refresh token, another non-2xx status a server-side failure, and a 2xx
/// answer carries the new tokens.
pub fn refresh_status(status: u16) -> (r: Result<(), ApiError>)
    ensures
        status == 400 ==> (r matches Err(e) && e.is_invalid_input(
            "Refresh token is expired or invalid"@,
        )),
        status != 400 && !is_success(status) ==> r == Err::<(), ApiError>(ApiError::InternalError),
        is_success(status) ==> r is Ok,
{
    if status == 400 {
        Err(ApiError::invalid_input("Refresh token is expired or invalid"))
    } else if !(200 <= status && status <= 299) {
        Err(ApiError::InternalError)
    } else {
        Ok(())
    }
}

} // verus!
