use cartences::errors::AuthError;
use cartences::password::{hash_password, verify_password};
use cartences::token::{create_jwt, decode_jwt, JwtConfig, TOKEN_LIFETIME_SECS};

fn test_config() -> JwtConfig {
    JwtConfig { secret: b"a-test-signing-secret".to_vec() }
}

#[test]
fn password_hash_verify_round_trip() {
    let h = hash_password("hunter2").expect("hashing should succeed");
    assert!(verify_password("hunter2", &h));
    assert!(!verify_password("hunter3", &h));
    assert!(!verify_password("", &h));
}

#[test]
fn password_verify_malformed_hash_is_false() {
    assert!(!verify_password("hunter2", "not-a-bcrypt-hash"));
    assert!(!verify_password("hunter2", ""));
    assert!(!verify_password("hunter2", "hunter2"));
}

#[test]
fn token_round_trip() {
    let cfg = test_config();
    let now: u64 = 1_700_000_000;
    let token = create_jwt(42, "alice", "user", now, &cfg).expect("signing should succeed");
    let claims = decode_jwt(&token, &cfg, now).expect("fresh token should verify");
    assert_eq!(claims.sub, "42");
    assert_eq!(claims.username, "alice");
    assert_eq!(claims.role, "user");
    assert_eq!(claims.aud, "cartences");
    assert_eq!(claims.iat, now);
    assert_eq!(claims.nbf, now);
    assert_eq!(claims.exp, now + TOKEN_LIFETIME_SECS);
}

#[test]
fn token_round_trip_with_bearer_prefix() {
    let cfg = test_config();
    let now: u64 = 1_700_000_000;
    let token = create_jwt(7, "bob", "manager", now, &cfg).expect("signing should succeed");
    let header = format!("Bearer {}", token);
    let claims = decode_jwt(&header, &cfg, now + 1).expect("prefixed token should verify");
    assert_eq!(claims.sub, "7");
    assert_eq!(claims.role, "manager");
}

#[test]
fn token_expiry_boundary() {
    let cfg = test_config();
    let now: u64 = 1_700_000_000;
    let token = create_jwt(1, "alice", "user", now, &cfg).expect("signing should succeed");
    let exp = now + TOKEN_LIFETIME_SECS;
    // One second before expiry: the expiry is now + 1, the token passes.
    assert!(decode_jwt(&token, &cfg, exp - 1).is_ok());
    // At expiry and one second past it (expiry == now - 1): it fails.
    assert!(matches!(decode_jwt(&token, &cfg, exp), Err(AuthError::Verification)));
    assert!(matches!(decode_jwt(&token, &cfg, exp + 1), Err(AuthError::Verification)));
}

#[test]
fn token_not_yet_valid_fails() {
    let cfg = test_config();
    let now: u64 = 1_700_000_000;
    let token = create_jwt(1, "alice", "user", now, &cfg).expect("signing should succeed");
    assert!(matches!(decode_jwt(&token, &cfg, now - 1), Err(AuthError::Verification)));
    assert!(decode_jwt(&token, &cfg, now).is_ok());
}

#[test]
fn token_wrong_secret_fails() {
    let cfg = test_config();
    let other = JwtConfig { secret: b"another-secret-entirely".to_vec() };
    let now: u64 = 1_700_000_000;
    let token = create_jwt(1, "alice", "user", now, &cfg).expect("signing should succeed");
    assert!(matches!(decode_jwt(&token, &other, now), Err(AuthError::Verification)));
}

#[test]
fn token_garbage_fails() {
    let cfg = test_config();
    let now: u64 = 1_700_000_000;
    assert!(matches!(decode_jwt("", &cfg, now), Err(AuthError::Verification)));
    assert!(matches!(decode_jwt("Bearer ", &cfg, now), Err(AuthError::Verification)));
    assert!(matches!(decode_jwt("a.b.c", &cfg, now), Err(AuthError::Verification)));
    assert!(matches!(
        decode_jwt("Bearer not-a-token", &cfg, now),
        Err(AuthError::Verification)
    ));
}

#[test]
fn tampered_token_fails() {
    let cfg = test_config();
    let now: u64 = 1_700_000_000;
    let token = create_jwt(42, "alice", "user", now, &cfg).expect("signing should succeed");
    assert!(decode_jwt(&token, &cfg, now).is_ok());
    let bytes = token.as_bytes();
    for i in 0..bytes.len() {
        let mut flipped = bytes.to_vec();
        flipped[i] ^= 0x01;
        // The compact encoding is ASCII, so a low-bit flip stays valid UTF-8.
        let tampered = String::from_utf8(flipped).expect("flipped token should stay ASCII");
        assert!(
            matches!(decode_jwt(&tampered, &cfg, now), Err(AuthError::Verification)),
            "byte flip at {} must fail verification",
            i
        );
    }
}

#[test]
fn error_status_codes() {
    assert_eq!(AuthError::Conflict.status_code(), 409);
    assert_eq!(AuthError::NotFound.status_code(), 404);
    assert_eq!(AuthError::Unauthorized.status_code(), 401);
    assert_eq!(AuthError::Verification.status_code(), 401);
    assert_eq!(AuthError::Authorization.status_code(), 403);
    assert_eq!(AuthError::Internal.status_code(), 500);
}

#[test]
fn error_messages() {
    assert_eq!(AuthError::NotFound.message(), "User not found");
    assert_eq!(AuthError::Unauthorized.message(), "Invalid username or password");
    assert_eq!(AuthError::Verification.message(), "Invalid token");
    assert_eq!(AuthError::Conflict.message(), "Username or email already exists");
    assert_eq!(AuthError::Authorization.message(), "Insufficient role");
    assert_eq!(AuthError::Internal.message(), "Internal server error");
}
