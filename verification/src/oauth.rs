//! Bearer-token authentication against the identity provider's published
//! signing keys.

use vstd::prelude::*;
use vstd::string::*;

use crate::error::ApiError;
use crate::text::{has_prefix, join2, join3, same_text, str_opt, strip_prefix, text_opt};

verus! {

/// The identity claims carried by an access token.
pub struct Claims {
    /// The subject: the user's stable id.
    pub sub: String,
    /// The user's e-mail address, if the token carries one.
    pub email: Option<String>,
    /// The user's login name, if the token carries one.
    pub preferred_username: Option<String>,
    /// Expiry, seconds since the epoch.
    pub exp: usize,
    /// Issue time, seconds since the epoch.
    pub iat: usize,
}

/// The modulus and exponent of an RSA public key, base64url-encoded.
pub struct RsaComponents {
    pub n: String,
    pub e: String,
}

/// One published signing key: its id and, for an RSA key, its components.
pub struct JsonWebKey {
    pub kid: Option<String>,
    pub rsa: Option<RsaComponents>,
}

/// The identity provider's published signing keys, in published order.
pub struct KeySet {
    pub keys: Vec<JsonWebKey>,
}

/// The provider's key set and the issuer its tokens must name.
pub struct OAuthConfig {
    pub jwks: KeySet,
    pub issuer: String,
}

/// The signature algorithms a token may be checked with.
#[derive(Debug, Clone, Copy, PartialEq, Eq)]
pub enum SigningAlgorithm {
    RS256,
}

/// How a token's signature and claims are checked.
pub struct TokenCheck {
    /// The one algorithm the token's header may name.
    pub algorithm: SigningAlgorithm,
    /// The issuer the token's `iss` claim, when present, must name.
    pub issuer: String,
    /// Whether the `aud` claim is checked (with no audience configured, any
    /// `aud` claim is then refused).
    pub check_audience: bool,
}

/// `k` carries the key id `kid`.
pub open spec fn key_has_id(k: JsonWebKey, kid: Seq<char>) -> bool {
    k.kid matches Some(id) && id@ == kid
}

/// `keys[i]` is the first key that carries `kid`.
pub open spec fn first_with_id(keys: Seq<JsonWebKey>, kid: Seq<char>, i: int) -> bool {
    &&& 0 <= i < keys.len()
    &&& key_has_id(keys[i], kid)
    &&& forall|j: int| 0 <= j < i ==> !key_has_id(#[trigger] keys[j], kid)
}

/// The first key of `keys` that carries `kid`, if any.
pub open spec fn lookup_key(keys: Seq<JsonWebKey>, kid: Seq<char>) -> Option<JsonWebKey> {
    if exists|i: int| first_with_id(keys, kid, i) {
        Some(keys[choose|i: int| first_with_id(keys, kid, i)])
    } else {
        None
    }
}

/// What decoding a token's header gives: `None` when the header cannot be
/// decoded, else the key id it names (or none). Takes the base64url and JSON
/// decoding of jsonwebtoken's `decode_header`.
pub uninterp spec fn jwt_header_kid(token: Seq<char>) -> Option<Option<Seq<char>>>;

/// Whether `token` passes every check that jsonwebtoken's `decode` makes
/// when it is given the RSA key with base64url components `n` and `e`,
/// validation for RS256 alone, the single issuer `issuer`, and audience
/// checking `audience_checked` with no audience configured — leaving out the
/// checks against the clock. That is: both components decode; the header
/// decodes and names `RS256`; the signature over header and payload verifies
/// with that key; the payload decodes to JSON and carries a numeric `exp` claim;
/// its `iss` claim, when present, is `issuer` or an array every entry of
/// which is `issuer`; and, when `audience_checked`, it carries no `aud`
/// claim. Besides, its `exp` claim is at least `expiry_at_least`.
pub uninterp spec fn rs256_verified(
    token: Seq<char>,
    n: Seq<char>,
    e: Seq<char>,
    issuer: Seq<char>,
    audience_checked: bool,
    expiry_at_least: u64,
) -> bool;

/// The claims of `token` as JSON text: its payload segment base64url-decoded,
/// read as a JSON value and written back by `serde_json::to_string`. A
/// function of the token alone.
pub uninterp spec fn jwt_claims_text(token: Seq<char>) -> Seq<char>;

#[verifier::external_type_specification]
#[verifier::external_body]
pub struct ExJwtError(jsonwebtoken::errors::Error);

/// Calls `jsonwebtoken::decode_header` and keeps the header's `kid`; the
/// outcome is the named result `jwt_header_kid` of the token.
#[verifier::external_body]
fn decode_header_kid(token: &str) -> (r: Result<Option<String>, jsonwebtoken::errors::Error>)
    ensures
        match r {
            Ok(kid) => jwt_header_kid(token@) == Some(text_opt(kid)),
            Err(_) => jwt_header_kid(token@) is None,
        },
{
    jsonwebtoken::decode_header(token).map(|h| h.kid)
}

/// Calls `jsonwebtoken::decode` with the RSA key made by
/// `DecodingKey::from_rsa_components(n, e)` and the `Validation` that `check`
/// describes (`Validation::new` for its algorithm, `set_issuer` with its
/// issuer, `validate_aud` set to its audience flag), and hands back the
/// token's claims written as JSON text by `serde_json::to_string`. Whether it
/// succeeds also depends on the clock: jsonwebtoken refuses a token whose
/// `exp` is below the current time less 60 seconds of leeway. So of success
/// only what it implies is claimed: the time-independent checks, named
/// `rs256_verified`, passed; and the text handed back is the token's own
/// claims text. And a token that passes those checks with the largest
/// possible `exp` is expired under no clock, so it is accepted.
#[verifier::external_body]
fn decode_claims(token: &str, n: &str, e: &str, check: &TokenCheck) -> (r: Result<String, jsonwebtoken::errors::Error>)
    ensures
        r is Ok ==> rs256_verified(token@, n@, e@, check.issuer@, check.check_audience, 0),
        rs256_verified(token@, n@, e@, check.issuer@, check.check_audience, u64::MAX) ==> r is Ok,
        r matches Ok(t) ==> t@ == jwt_claims_text(token@),
{
    let key = jsonwebtoken::DecodingKey::from_rsa_components(n, e)?;
    let algorithm = match check.algorithm {
        SigningAlgorithm::RS256 => jsonwebtoken::Algorithm::RS256,
    };
    let mut validation = jsonwebtoken::Validation::new(algorithm);
    validation.set_issuer(&[check.issuer.as_str()]);
    validation.validate_aud = check.check_audience;
    let data = jsonwebtoken::decode::<serde_json::Value>(token, &key, &validation)?;
    Ok(serde_json::to_string(&data.claims)?)
}

proof fn lemma_first_with_id_unique(keys: Seq<JsonWebKey>, kid: Seq<char>, i: int, j: int)
    requires
        first_with_id(keys, kid, i),
        first_with_id(keys, kid, j),
    ensures
        i == j,
{
    if i < j {
        assert(!key_has_id(keys[i], kid));
    } else if j < i {
        assert(!key_has_id(keys[j], kid));
    }
}

/// The key that lookup picks is the first key carrying the id, at whatever
/// position it stands, and lookup finds nothing exactly when no key
/// carries the id.
pub proof fn law_lookup_is_first_match(keys: Seq<JsonWebKey>, kid: Seq<char>, i: int)
    ensures
        first_with_id(keys, kid, i) ==> lookup_key(keys, kid) == Some(keys[i]),
        lookup_key(keys, kid) is None <==> forall|j: int|
            0 <= j < keys.len() ==> !key_has_id(#[trigger] keys[j], kid),
{
    if first_with_id(keys, kid, i) {
        let c = choose|c: int| first_with_id(keys, kid, c);
        lemma_first_with_id_unique(keys, kid, c, i);
    }
    if exists|j: int| 0 <= j < keys.len() && key_has_id(keys[j], kid) {
        let j = choose|j: int| 0 <= j < keys.len() && key_has_id(keys[j], kid);
        lemma_first_match_exists(keys, kid, j);
    }
}

proof fn lemma_first_match_exists(keys: Seq<JsonWebKey>, kid: Seq<char>, j: int)
    requires
        0 <= j < keys.len(),
        key_has_id(keys[j], kid),
    ensures
        exists|i: int| first_with_id(keys, kid, i),
    decreases j,
{
    if forall|k: int| 0 <= k < j ==> !key_has_id(#[trigger] keys[k], kid) {
        assert(first_with_id(keys, kid, j));
    } else {
        let k = choose|k: int| 0 <= k < j && key_has_id(keys[k], kid);
        lemma_first_match_exists(keys, kid, k);
    }
}

impl KeySet {
    /// The position of the first key that carries the id `kid`, as
    /// `JwkSet::find` picks it.
    pub fn find(&self, kid: &str) -> (r: Option<usize>)
        ensures
            match r {
                Some(i) => first_with_id(self.keys@, kid@, i as int),
                None => forall|i: int|
                    0 <= i < self.keys@.len() ==> !key_has_id(#[trigger] self.keys@[i], kid@),
            },
            lookup_key(self.keys@, kid@) == match r {
                Some(i) => Some(self.keys@[i as int]),
                None => None::<JsonWebKey>,
            },
    {
        let n = self.keys.len();
        let mut i: usize = 0;
        while i < n
            invariant
                n == self.keys@.len(),
                i <= n,
                forall|j: int| 0 <= j < i ==> !key_has_id(#[trigger] self.keys@[j], kid@),
            decreases n - i,
        {
            let found = match &self.keys[i].kid {
                Some(id) => same_text(id.as_str(), kid),
                None => false,
            };
            if found {
                proof {
                    assert(first_with_id(self.keys@, kid@, i as int));
                    let c = choose|c: int| first_with_id(self.keys@, kid@, c);
                    lemma_first_with_id_unique(self.keys@, kid@, c, i as int);
                }
                return Some(i);
            }
            i = i + 1;
        }
        None
    }
}

impl OAuthConfig {
    /// `token` passes every check but those against the clock, with an
    /// `exp` claim of at least `expiry_at_least`: its header names a key id,
    /// the first published key with that id is an RSA key, and under that
    /// key the token verifies as RS256 for this issuer with no audience
    /// check.
    pub open spec fn token_verifies(self, token: Seq<char>, expiry_at_least: u64) -> bool {
        &&& jwt_header_kid(token) matches Some(Some(kid))
        &&& lookup_key(self.jwks.keys@, kid) matches Some(k)
        &&& k.rsa matches Some(c)
        &&& rs256_verified(token, c.n@, c.e@, self.issuer@, false, expiry_at_least)
    }

    /// `token` passes every check but those against the clock.
    pub open spec fn token_accepted(self, token: Seq<char>) -> bool {
        self.token_verifies(token, 0)
    }

    /// `token` passes every check but those against the clock and can
    /// expire under no clock (its `exp` is the largest possible).
    pub open spec fn token_never_expires(self, token: Seq<char>) -> bool {
        self.token_verifies(token, u64::MAX)
    }

    /// How this provider's tokens are checked: RS256 only, this issuer, no
    /// audience.
    pub fn token_check(&self) -> (c: TokenCheck)
        ensures
            c.algorithm == SigningAlgorithm::RS256,
            c.issuer@ == self.issuer@,
            !c.check_audience,
    {
        TokenCheck { algorithm: SigningAlgorithm::RS256, issuer: self.issuer.clone(), check_audience: false }
    }

    /// The issuer of a realm: `<provider url>/realms/<realm>`.
    pub fn issuer_url(keycloak_url: &str, realm: &str) -> (r: String)
        ensures
            r@ == keycloak_url@ + "/realms/"@ + realm@,
    {
        join3(keycloak_url, "/realms/", realm)
    }

    /// Where an issuer publishes its signing keys.
    pub fn jwks_url(issuer: &str) -> (r: String)
        ensures
            r@ == issuer@ + "/protocol/openid-connect/certs"@,
    {
        join2(issuer, "/protocol/openid-connect/certs")
    }

    /// Checks `token` and hands back its claims as JSON text: its header must
    /// name a key id, the first published key with that id must be an RSA
    /// key, and under that key the token must pass RS256 decoding for this
    /// issuer (signature, expiry) with no audience check. Every refusal is
    /// `Unauthorized`. The claims' shape is not checked here: they are parsed
    /// into `Claims` by the caller.
    pub fn validate_token(&self, token: &str) -> (r: Result<String, ApiError>)
        ensures
            r is Err ==> r == Err::<String, ApiError>(ApiError::Unauthorized),
            r is Ok ==> self.token_accepted(token@),
            self.token_never_expires(token@) ==> r is Ok,
            r matches Ok(c) ==> c@ == jwt_claims_text(token@),
    {
        let kid = match decode_header_kid(token) {
            Ok(Some(kid)) => kid,
            _ => {
                return Err(ApiError::Unauthorized);
            },
        };
        let index = match self.jwks.find(kid.as_str()) {
            Some(i) => i,
            None => {
                return Err(ApiError::Unauthorized);
            },
        };
        let components = match &self.jwks.keys[index].rsa {
            Some(c) => c,
            None => {
                return Err(ApiError::Unauthorized);
            },
        };
        let check = self.token_check();
        match decode_claims(token, components.n.as_str(), components.e.as_str(), &check) {
            Ok(claims) => Ok(claims),
            Err(_) => Err(ApiError::Unauthorized),
        }
    }
}

/// The token that an `Authorization` header value carries: what follows
/// `Bearer `; none when the header is missing or has another form.
pub open spec fn bearer_of(header: Option<Seq<char>>) -> Option<Seq<char>> {
    match header {
        Some(h) => if has_prefix(h, "Bearer "@) {
            Some(h.subrange(7, h.len() as int))
        } else {
            None
        },
        None => None,
    }
}

/// The bearer token of a request, from its `Authorization` header value
/// (`None` when the header is missing or not text). Anything but
/// `Bearer <token>` is `Unauthorized`.
pub fn bearer_token(header: Option<&str>) -> (r: Result<String, ApiError>)
    ensures
        match bearer_of(str_opt(header)) {
            Some(t) => r matches Ok(s) && s@ == t,
            None => r == Err::<String, ApiError>(ApiError::Unauthorized),
        },
{
    proof {
        reveal_strlit("Bearer ");
    }
    match header {
        None => Err(ApiError::Unauthorized),
        Some(h) => match strip_prefix(h, "Bearer ") {
            Some(t) => {
                assert(h@.subrange(7, h@.len() as int) =~= t@);
                Ok(t)
            },
            None => Err(ApiError::Unauthorized),
        },
    }
}

impl OAuthConfig {
    /// Authenticates a request by its `Authorization` header value: the
    /// header must be `Bearer <token>` and the token must pass
    /// `validate_token`. Every refusal is `Unauthorized`.
    pub fn authenticate(&self, header: Option<&str>) -> (r: Result<String, ApiError>)
        ensures
            r is Err ==> r == Err::<String, ApiError>(ApiError::Unauthorized),
            r is Ok ==> (bearer_of(str_opt(header)) matches Some(t) && self.token_accepted(t)),
            (bearer_of(str_opt(header)) matches Some(t) && self.token_never_expires(t)) ==> r is Ok,
            r matches Ok(c) ==> (bearer_of(str_opt(header)) matches Some(t) && c@ == jwt_claims_text(t)),
    {
        let token = bearer_token(header)?;
        self.validate_token(token.as_str())
    }
}

/// No header, or a header not starting with `Bearer ` (exact case, one
/// space), carries no token.
pub proof fn law_bearer_needs_prefix(h: Seq<char>)
    ensures
        bearer_of(None) is None,
        !has_prefix(h, "Bearer "@) ==> bearer_of(Some(h)) is None,
        bearer_of(Some(h)) matches Some(t) ==> h == "Bearer "@ + t,
{
    reveal_strlit("Bearer ");
    if has_prefix(h, "Bearer "@) {
        assert(h =~= "Bearer "@ + h.subrange(7, h.len() as int));
    }
}

/// A header `Bearer <t>` yields exactly `t`, whatever `t` holds.
pub proof fn law_bearer_round_trip(t: Seq<char>)
    ensures
        bearer_of(Some("Bearer "@ + t)) == Some(t),
{
    reveal_strlit("Bearer ");
    let h = "Bearer "@ + t;
    assert(h.subrange(0, 7) =~= "Bearer "@);
    assert(h.subrange(7, h.len() as int) =~= t);
}

} // verus!
