//! Registration, login, and the authorization gate.
//!
//! These are the orchestration flows of the core: they combine the
//! credential store, the password hasher and the token issuer/verifier, and
//! convert every failure to the closed error taxonomy.

use vstd::prelude::*;
use crate::errors::AuthError;
use crate::numbers::{dec_str_of, parse_dec_spec};
use crate::password::{bcrypt_matches, hash_password, verify_password};
use crate::store::{UserStore, UserModel, has_username, has_email, spec_find_user, spec_role_of_id};
use crate::text::str_eq;
use crate::token::{
    Claims,
    JwtConfig,
    claims_model,
    create_jwt,
    decode_jwt,
    decode_outcome,
    jwt_claims_of,
    jwt_token_of,
    spec_audience,
    TOKEN_LIFETIME_SECS,
};

verus! {

/// A login request: the credentials a caller presents.
pub struct UserLogin {
    /// The claimed username.
    pub username: String,
    /// The plaintext password to check.
    pub password: String,
}

/// A registration request.
pub struct UserRegister {
    /// The requested unique username.
    pub username: String,
    /// The plaintext password to hash and store.
    pub password: String,
    /// The requested unique email.
    pub email: String,
}

/// The created identity that a successful registration returns: never the
/// password hash.
pub struct RegisteredUser {
    /// The stored username.
    pub username: String,
    /// The stored email.
    pub email: String,
    /// The assigned role; registration always assigns "user".
    pub role: String,
}

/// Registers a new user: rejects a taken username or email with a conflict
/// before writing anything, hashes the password, and inserts the record
/// with the role fixed to "user". A privileged account can never be created
/// this way.
pub fn register(store: &mut UserStore, req: &UserRegister) -> (r: Result<RegisteredUser, AuthError>)
    requires
        old(store).wf(),
    ensures
        final(store).wf(),
        ({
            if has_username(old(store)@, req.username@) || has_email(old(store)@, req.email@) {
                &&& r matches Err(e) && e == AuthError::Conflict
                &&& final(store)@ == old(store)@
            } else {
                match r {
                    Result::Ok(u) => {
                        &&& u.username@ == req.username@
                        &&& u.email@ == req.email@
                        &&& u.role@ == "user"@
                        &&& final(store)@.len() == old(store)@.len() + 1
                        &&& final(store)@ =~= old(store)@.push(final(store)@.last())
                        &&& final(store)@.last().username == req.username@
                        &&& final(store)@.last().email == req.email@
                        &&& final(store)@.last().role == "user"@
                        &&& final(store)@.last().id == old(store)@.len()
                        &&& bcrypt_matches(req.password@, final(store)@.last().password_hash)
                    },
                    Result::Err(e) => e == AuthError::Internal && final(store)@ == old(store)@,
                }
            }
        }),
{
    if store.exists_username_or_email(req.username.as_str(), req.email.as_str()) {
        return Err(AuthError::Conflict);
    }
    let hash = match hash_password(req.password.as_str()) {
        Ok(h) => h,
        Err(_) => {
            return Err(AuthError::Internal);
        },
    };
    match store.insert_user(req.username.as_str(), hash.as_str(), req.email.as_str(), "user") {
        Ok(_) => Ok(
            RegisteredUser {
                username: crate::text::owned_str(req.username.as_str()),
                email: crate::text::owned_str(req.email.as_str()),
                role: crate::text::owned_str("user"),
            },
        ),
        Err(_) => {
            proof {
                assert(false);
            }
            Err(AuthError::Internal)
        },
    }
}

/// Logs a user in: looks the username up, checks the password against the
/// stored hash, and issues a token keyed to the stored id, username and
/// role, frozen at login time. An unknown username is reported as not
/// found, a wrong password as unauthorized.
pub fn login(store: &UserStore, req: &UserLogin, cfg: &JwtConfig, now: u64) -> (r: Result<
    String,
    AuthError,
>)
    requires
        store.wf(),
        now + TOKEN_LIFETIME_SECS <= u64::MAX,
    ensures
        ({
            match spec_find_user(store@, req.username@) {
                Option::None => r matches Err(e) && e == AuthError::NotFound,
                Option::Some(u) => {
                    if !bcrypt_matches(req.password@, u.password_hash) {
                        r matches Err(e) && e == AuthError::Unauthorized
                    } else {
                        match r {
                            Result::Ok(t) => {
                                &&& t@ == jwt_token_of(
                                    dec_str_of(u.id as nat),
                                    u.username,
                                    u.role,
                                    spec_audience(),
                                    now,
                                    now,
                                    (now + TOKEN_LIFETIME_SECS) as u64,
                                    cfg.secret@,
                                )
                                &&& jwt_claims_of(t@, cfg.secret@) == Some(
                                    (
                                        dec_str_of(u.id as nat),
                                        u.username,
                                        u.role,
                                        spec_audience(),
                                        now,
                                        now,
                                        (now + TOKEN_LIFETIME_SECS) as u64,
                                    ),
                                )
                                &&& !crate::text::has_bearer_prefix(t@)
                            },
                            Result::Err(e) => e == AuthError::Internal,
                        }
                    }
                },
            }
        }),
{
    let user = match store.find_by_username(req.username.as_str()) {
        None => {
            return Err(AuthError::NotFound);
        },
        Some(u) => u,
    };
    if !verify_password(req.password.as_str(), user.password_hash.as_str()) {
        return Err(AuthError::Unauthorized);
    }
    create_jwt(user.id, user.username.as_str(), user.role.as_str(), now, cfg)
}

/// The authorization gate's outcome on a header value at a given time, over
/// a given credential table: the verified claims when the token verifies
/// and the acting role — re-fetched from the table by the token's subject,
/// so that role changes made after issuance are honoured — equals the
/// required one; the appropriate error otherwise.
pub open spec fn require_role_outcome(
    header: Seq<char>,
    key: Seq<u8>,
    now: u64,
    rows: Seq<UserModel>,
    required: Seq<char>,
) -> Result<(Seq<char>, Seq<char>, Seq<char>, Seq<char>, u64, u64, u64), AuthError> {
    match decode_outcome(header, key, now) {
        Result::Err(e) => Result::Err(e),
        Result::Ok(t) => match parse_dec_spec(t.0) {
            Option::None => Result::Err(AuthError::Authorization),
            Option::Some(id) => match spec_role_of_id(rows, id) {
                Option::None => Result::Err(AuthError::Authorization),
                Option::Some(role) => if role == required {
                    Result::Ok(t)
                } else {
                    Result::Err(AuthError::Authorization)
                },
            },
        },
    }
}

/// The reusable capability check: verifies the bearer token, re-fetches the
/// acting role from the credential store by the token's subject, and
/// compares it to the required role. Token failures surface as the
/// verification error; a missing or insufficient role as the authorization
/// error.
pub fn require_role(
    header: &str,
    store: &UserStore,
    required_role: &str,
    cfg: &JwtConfig,
    now: u64,
) -> (r: Result<Claims, AuthError>)
    requires
        store.wf(),
    ensures
        r matches Ok(c) ==> require_role_outcome(header@, cfg.secret@, now, store@, required_role@)
            == Result::<_, AuthError>::Ok(claims_model(c)),
        r matches Err(e) ==> require_role_outcome(
            header@,
            cfg.secret@,
            now,
            store@,
            required_role@,
        ) matches Result::Err(e2) && e == e2,
{
    let claims = match decode_jwt(header, cfg, now) {
        Err(e) => {
            return Err(e);
        },
        Ok(c) => c,
    };
    let user_id = match crate::numbers::parse_u64_dec(claims.sub.as_str()) {
        None => {
            return Err(AuthError::Authorization);
        },
        Some(id) => id,
    };
    let role = match store.find_role_by_id(user_id) {
        None => {
            return Err(AuthError::Authorization);
        },
        Some(role) => role,
    };
    if str_eq(role.as_str(), required_role) {
        Ok(claims)
    } else {
        Err(AuthError::Authorization)
    }
}

/// The bare role comparison, for callers that already hold the acting
/// role: allows exactly when it equals the required one.
pub fn check_role(resolved_role: &str, required_role: &str) -> (r: Result<(), AuthError>)
    ensures
        r is Ok <==> resolved_role@ == required_role@,
        r matches Err(e) ==> e == AuthError::Authorization,
{
    if str_eq(resolved_role, required_role) {
        Ok(())
    } else {
        Err(AuthError::Authorization)
    }
}

/// The credential round trip behind registration and login: once a record
/// is inserted into a table that did not hold its username, a lookup by
/// that username finds exactly that record — so a login after registration
/// checks the password against the hash that registration stored, reaches
/// token issuance when it matches, and is rejected when it does not.
pub proof fn lemma_register_then_login(rows: Seq<UserModel>, row: UserModel)
    requires
        !has_username(rows, row.username),
    ensures
        spec_find_user(rows.push(row), row.username) == Some(row),
{
    let rows2 = rows.push(row);
    assert(rows2[rows.len() as int].username == row.username);
    assert(has_username(rows2, row.username));
    let k = choose|k: int| 0 <= k < rows2.len() && #[trigger] rows2[k].username == row.username;
    if k < rows.len() {
        assert(rows[k].username == row.username);
        assert(false);
    }
    assert(rows2[k] == row);
}

/// The role gate law: a token that verifies and whose subject's stored role
/// is not the required one is rejected with the authorization error; with
/// the required role it passes and hands the claims back unchanged.
pub proof fn lemma_role_gate(
    c: Claims,
    tok: Seq<char>,
    key: Seq<u8>,
    now: u64,
    rows: Seq<UserModel>,
    user_id: u64,
    stored_role: Seq<char>,
    required: Seq<char>,
)
    requires
        jwt_claims_of(tok, key) == Some(claims_model(c)),
        !crate::text::has_bearer_prefix(tok),
        c.sub@ == dec_str_of(user_id as nat),
        c.aud@ == spec_audience(),
        c.nbf <= now,
        now < c.exp,
        spec_role_of_id(rows, user_id) == Some(stored_role),
    ensures
        stored_role != required ==> require_role_outcome(tok, key, now, rows, required)
            == Result::<
            (Seq<char>, Seq<char>, Seq<char>, Seq<char>, u64, u64, u64),
            AuthError,
        >::Err(AuthError::Authorization),
        stored_role == required ==> require_role_outcome(tok, key, now, rows, required)
            == Result::<_, AuthError>::Ok(claims_model(c)),
{
    crate::token::lemma_issue_verify_round_trip(c, tok, key, now, user_id);
}

} // verus!
