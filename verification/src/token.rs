//! The token issuer and verifier.
//!
//! A signed bearer token encodes identity, role and a validity window. The
//! signing and the signature check stand behind trusted wrappers around
//! `jsonwebtoken`; building the claims, stripping the `"Bearer "` prefix,
//! and checking audience and validity window against the given time are
//! verified here.

use vstd::prelude::*;
use std::collections::HashSet;
use jsonwebtoken::{Algorithm, DecodingKey, EncodingKey, Header, Validation};
use serde_json::Value;
use crate::errors::AuthError;
use crate::numbers::dec_str_of;
use crate::text::{str_eq, strip_bearer, token_body, has_bearer_prefix};

verus! {

/// The fixed audience constant identifying this service.
pub open spec fn spec_audience() -> Seq<char> {
    "cartences"@
}

/// The fixed validity window: seven days, in seconds.
pub const TOKEN_LIFETIME_SECS: u64 = 604800;

/// The signed payload of a token: subject (the user id as a string),
/// username and role snapshots, audience, and the validity window.
pub struct Claims {
    /// The user's id, carried as a string.
    pub sub: String,
    /// Expiry, seconds since the epoch.
    pub exp: u64,
    /// The audience constant of this service.
    pub aud: String,
    /// Issued-at, seconds since the epoch.
    pub iat: u64,
    /// Not-before, seconds since the epoch.
    pub nbf: u64,
    /// The role snapshot taken at issuance.
    pub role: String,
    /// The username snapshot taken at issuance.
    pub username: String,
}

/// The mathematical content of a claims value.
pub open spec fn claims_model(c: Claims) -> (
    Seq<char>,
    Seq<char>,
    Seq<char>,
    Seq<char>,
    u64,
    u64,
    u64,
) {
    (c.sub@, c.username@, c.role@, c.aud@, c.iat, c.nbf, c.exp)
}

/// The token issuer's and verifier's configuration: the one symmetric
/// signing secret, loaded once at process startup and passed in explicitly.
pub struct JwtConfig {
    /// The symmetric signing key.
    pub secret: Vec<u8>,
}

/// What signing produces: the HS256-signed compact token of exactly these
/// claim fields under this key. A pure function of its arguments.
pub uninterp spec fn jwt_token_of(
    sub: Seq<char>,
    username: Seq<char>,
    role: Seq<char>,
    aud: Seq<char>,
    iat: u64,
    nbf: u64,
    exp: u64,
    key: Seq<u8>,
) -> Seq<char>;

/// What the signature check and payload parse of a token under a key yield:
/// the claim fields if and only if the token is well-formed and its HS256
/// signature is valid under the key. A pure function of its arguments; time
/// plays no part in it.
pub uninterp spec fn jwt_claims_of(token: Seq<char>, key: Seq<u8>) -> Option<
    (Seq<char>, Seq<char>, Seq<char>, Seq<char>, u64, u64, u64),
>;

/// Relies on `jsonwebtoken::encode` with HS256: produces the signed compact
/// token of the given claim fields; `jsonwebtoken::decode` under the same
/// key gives the same fields back, and the compact encoding is drawn from
/// the base64url alphabet and `'.'`, so it never starts with `"Bearer "`.
#[verifier::external_body]
fn jwt_encode_call(c: &Claims, secret: &[u8]) -> (r: Option<String>)
    ensures
        r matches Some(t) ==> t@ == jwt_token_of(
            c.sub@,
            c.username@,
            c.role@,
            c.aud@,
            c.iat,
            c.nbf,
            c.exp,
            secret@,
        ),
        r matches Some(t) ==> jwt_claims_of(t@, secret@) == Some(claims_model(*c)),
        r matches Some(t) ==> !has_bearer_prefix(t@),
{
    let mut m = serde_json::Map::new();
    m.insert("sub".into(), Value::String(c.sub.clone()));
    m.insert("username".into(), Value::String(c.username.clone()));
    m.insert("role".into(), Value::String(c.role.clone()));
    m.insert("aud".into(), Value::String(c.aud.clone()));
    m.insert("iat".into(), Value::from(c.iat));
    m.insert("nbf".into(), Value::from(c.nbf));
    m.insert("exp".into(), Value::from(c.exp));
    let key = EncodingKey::from_secret(secret);
    jsonwebtoken::encode(&Header::default(), &Value::Object(m), &key).ok()
}

/// Relies on `jsonwebtoken::decode` with HS256: checks the signature under
/// the key and parses the payload; with expiry, not-before and audience
/// validation switched off its outcome depends on the token and the key
/// alone. The verified caller checks time and audience itself.
#[verifier::external_body]
fn jwt_decode_call(token: &str, secret: &[u8]) -> (r: Option<Claims>)
    ensures
        r matches Some(c) ==> jwt_claims_of(token@, secret@) == Some(claims_model(c)),
        r is None ==> jwt_claims_of(token@, secret@) is None,
{
    let mut v = Validation::new(Algorithm::HS256);
    v.validate_exp = false;
    v.validate_aud = false;
    v.required_spec_claims = HashSet::new();
    let d = jsonwebtoken::decode::<Value>(token, &DecodingKey::from_secret(secret), &v).ok()?;
    let c = d.claims;
    let sub = c["sub"].as_str()?.to_string();
    let username = c["username"].as_str()?.to_string();
    let role = c["role"].as_str()?.to_string();
    let aud = c["aud"].as_str()?.to_string();
    let iat = c["iat"].as_u64()?;
    let nbf = c["nbf"].as_u64()?;
    let exp = c["exp"].as_u64()?;
    Some(Claims { sub, exp, aud, iat, nbf, role, username })
}

/// Whether parsed claim fields are acceptable at a given time: the audience
/// is this service's, the token is no longer immature, and not yet expired.
/// No leeway is granted on either bound.
pub open spec fn accept_claims(
    t: (Seq<char>, Seq<char>, Seq<char>, Seq<char>, u64, u64, u64),
    now: u64,
) -> bool {
    &&& t.3 == spec_audience()
    &&& t.5 <= now
    &&& now < t.6
}

/// The verifier's outcome on a header value at a given time: the claim
/// fields when the signature holds and the claims are acceptable, and the
/// one undifferentiated verification error otherwise.
pub open spec fn decode_outcome(header: Seq<char>, key: Seq<u8>, now: u64) -> Result<
    (Seq<char>, Seq<char>, Seq<char>, Seq<char>, u64, u64, u64),
    AuthError,
> {
    match jwt_claims_of(token_body(header), key) {
        Option::None => Result::Err(AuthError::Verification),
        Option::Some(t) => if accept_claims(t, now) {
            Result::Ok(t)
        } else {
            Result::Err(AuthError::Verification)
        },
    }
}

/// Builds and signs a token for the given identity: issued-at and
/// not-before are `now`, expiry is `now` plus the fixed seven-day window,
/// the audience is this service's constant, and the subject is the decimal
/// rendering of the user id. Fails only when the signing primitive does.
pub fn create_jwt(user_id: u64, username: &str, role: &str, now: u64, cfg: &JwtConfig) -> (r:
    Result<String, AuthError>)
    requires
        now + TOKEN_LIFETIME_SECS <= u64::MAX,
    ensures
        ({
            let m = (
                dec_str_of(user_id as nat),
                username@,
                role@,
                spec_audience(),
                now,
                now,
                (now + TOKEN_LIFETIME_SECS) as u64,
            );
            match r {
                Result::Ok(t) => t@ == jwt_token_of(
                    m.0,
                    m.1,
                    m.2,
                    m.3,
                    m.4,
                    m.5,
                    m.6,
                    cfg.secret@,
                ) && jwt_claims_of(t@, cfg.secret@) == Some(m) && !has_bearer_prefix(t@),
                Result::Err(e) => e == AuthError::Internal,
            }
        }),
{
    let claims = Claims {
        sub: crate::numbers::u64_to_dec_string(user_id),
        exp: now + TOKEN_LIFETIME_SECS,
        aud: audience_string(),
        iat: now,
        nbf: now,
        role: crate::text::owned_str(role),
        username: crate::text::owned_str(username),
    };
    match jwt_encode_call(&claims, cfg.secret.as_slice()) {
        Some(t) => Ok(t),
        None => Err(AuthError::Internal),
    }
}

/// The audience constant as an owned string.
fn audience_string() -> (r: String)
    ensures
        r@ == spec_audience(),
{
    crate::text::owned_str("cartences")
}

/// Verifies a bearer token at the given time: strips one optional
/// `"Bearer "` prefix, checks the signature under the configured secret,
/// and checks audience and validity window. Every failure collapses to the
/// one verification error.
pub fn decode_jwt(header: &str, cfg: &JwtConfig, now: u64) -> (r: Result<Claims, AuthError>)
    ensures
        r matches Ok(c) ==> decode_outcome(header@, cfg.secret@, now) == Result::<
            _,
            AuthError,
        >::Ok(claims_model(c)),
        r matches Err(e) ==> decode_outcome(header@, cfg.secret@, now) matches Result::Err(e2)
            && e == e2,
{
    let token = strip_bearer(header);
    match jwt_decode_call(token, cfg.secret.as_slice()) {
        None => Err(AuthError::Verification),
        Some(c) => {
            if !str_eq(c.aud.as_str(), "cartences") {
                return Err(AuthError::Verification);
            }
            if !(c.nbf <= now && now < c.exp) {
                return Err(AuthError::Verification);
            }
            Ok(c)
        },
    }
}

/// The issue/verify round trip: a token whose signature check yields
/// exactly the claims it was issued with — as every token that `create_jwt`
/// returns does — passes verification at any time inside its validity
/// window, hands those claims back unchanged, and its subject parses back
/// to the user id it was issued for.
pub proof fn lemma_issue_verify_round_trip(c: Claims, tok: Seq<char>, key: Seq<u8>, now: u64, user_id: u64)
    requires
        jwt_claims_of(tok, key) == Some(claims_model(c)),
        !has_bearer_prefix(tok),
        c.sub@ == dec_str_of(user_id as nat),
        c.aud@ == spec_audience(),
        c.nbf <= now,
        now < c.exp,
    ensures
        decode_outcome(tok, key, now) == Result::<_, AuthError>::Ok(claims_model(c)),
        crate::numbers::parse_dec_spec(c.sub@) == Some(user_id),
{
    assert(token_body(tok) == tok);
    crate::numbers::lemma_dec_round_trip(user_id);
}

/// The expiry boundary: with the same signature-checked claims, a token
/// already at or past its expiry — one second past, in particular — fails
/// verification, and one still before it — by as little as one second —
/// passes.
pub proof fn lemma_expiry_boundary(c: Claims, tok: Seq<char>, key: Seq<u8>, now: u64)
    requires
        jwt_claims_of(tok, key) == Some(claims_model(c)),
        !has_bearer_prefix(tok),
        c.aud@ == spec_audience(),
        c.nbf <= now,
    ensures
        c.exp <= now ==> decode_outcome(tok, key, now) == Result::<
            (Seq<char>, Seq<char>, Seq<char>, Seq<char>, u64, u64, u64),
            AuthError,
        >::Err(AuthError::Verification),
        now < c.exp ==> decode_outcome(tok, key, now) == Result::<_, AuthError>::Ok(
            claims_model(c),
        ),
{
    assert(token_body(tok) == tok);
}

} // verus!
