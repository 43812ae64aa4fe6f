use cartences::errors::AuthError;
use cartences::models::NewSentence;
use cartences::numbers::{parse_u64_dec, u64_to_dec_string};
use cartences::service::{check_role, login, register, require_role, UserLogin, UserRegister};
use cartences::store::UserStore;
use cartences::text::{str_eq, strip_bearer};
use cartences::token::JwtConfig;

fn test_config() -> JwtConfig {
    JwtConfig { secret: b"a-test-signing-secret".to_vec() }
}

fn register_req(username: &str, password: &str, email: &str) -> UserRegister {
    UserRegister {
        username: username.to_string(),
        password: password.to_string(),
        email: email.to_string(),
    }
}

fn login_req(username: &str, password: &str) -> UserLogin {
    UserLogin { username: username.to_string(), password: password.to_string() }
}

#[test]
fn decimal_rendering() {
    assert_eq!(u64_to_dec_string(0), "0");
    assert_eq!(u64_to_dec_string(7), "7");
    assert_eq!(u64_to_dec_string(42), "42");
    assert_eq!(u64_to_dec_string(1000), "1000");
    assert_eq!(u64_to_dec_string(u64::MAX), "18446744073709551615");
}

#[test]
fn decimal_parsing() {
    assert_eq!(parse_u64_dec("0"), Some(0));
    assert_eq!(parse_u64_dec("42"), Some(42));
    assert_eq!(parse_u64_dec("18446744073709551615"), Some(u64::MAX));
    assert_eq!(parse_u64_dec(""), None);
    assert_eq!(parse_u64_dec("007"), None);
    assert_eq!(parse_u64_dec("4x2"), None);
    assert_eq!(parse_u64_dec("-1"), None);
    assert_eq!(parse_u64_dec("18446744073709551616"), None);
    assert_eq!(parse_u64_dec("99999999999999999999999"), None);
}

#[test]
fn string_helpers() {
    assert!(str_eq("manager", "manager"));
    assert!(!str_eq("manager", "user"));
    assert!(!str_eq("manager", "manage"));
    assert_eq!(strip_bearer("Bearer abc.def.ghi"), "abc.def.ghi");
    assert_eq!(strip_bearer("abc.def.ghi"), "abc.def.ghi");
    assert_eq!(strip_bearer("Bearer "), "");
    assert_eq!(strip_bearer("bearer x"), "bearer x");
}

#[test]
fn duplicate_registration_conflicts() {
    let mut store = UserStore::new();
    let first = register(&mut store, &register_req("alice", "pw1", "a@x.com"))
        .expect("first registration should succeed");
    assert_eq!(first.username, "alice");
    assert_eq!(first.role, "user");
    assert_eq!(store.len(), 1);

    let again = register(&mut store, &register_req("alice", "pw2", "other@x.com"));
    assert!(matches!(again, Err(AuthError::Conflict)));
    assert_eq!(store.len(), 1);

    let same_email = register(&mut store, &register_req("bob", "pw3", "a@x.com"));
    assert!(matches!(same_email, Err(AuthError::Conflict)));
    assert_eq!(store.len(), 1);
}

#[test]
fn authorization_gate_by_stored_role() {
    let now: u64 = 1_700_000_000;
    let cfg = test_config();
    let mut store = UserStore::new();
    register(&mut store, &register_req("plain", "pw-plain", "plain@x.com"))
        .expect("registration should succeed");
    // A privileged record, as an administrator would have seeded it.
    store
        .insert_user("boss", "irrelevant-hash", "boss@x.com", "manager")
        .expect("seeding a manager should succeed");

    let user_token =
        cartences::token::create_jwt(0, "plain", "user", now, &cfg).expect("signing");
    let manager_token =
        cartences::token::create_jwt(1, "boss", "manager", now, &cfg).expect("signing");

    let denied = require_role(&user_token, &store, "manager", &cfg, now);
    assert!(matches!(denied, Err(AuthError::Authorization)));

    let granted = require_role(&manager_token, &store, "manager", &cfg, now)
        .expect("manager token should be granted");
    assert_eq!(granted.sub, "1");
    assert_eq!(granted.role, "manager");
    assert_eq!(granted.username, "boss");

    let prefixed = require_role(
        &format!("Bearer {}", manager_token),
        &store,
        "manager",
        &cfg,
        now,
    )
    .expect("prefixed manager token should be granted");
    assert_eq!(prefixed.sub, "1");

    let unknown_subject =
        cartences::token::create_jwt(999, "ghost", "manager", now, &cfg).expect("signing");
    assert!(matches!(
        require_role(&unknown_subject, &store, "manager", &cfg, now),
        Err(AuthError::Authorization)
    ));

    assert!(matches!(
        require_role("Bearer junk", &store, "manager", &cfg, now),
        Err(AuthError::Verification)
    ));
}

#[test]
fn role_check_is_exact() {
    assert!(check_role("manager", "manager").is_ok());
    assert!(matches!(check_role("user", "manager"), Err(AuthError::Authorization)));
    assert!(matches!(check_role("", "manager"), Err(AuthError::Authorization)));
}

#[test]
fn end_to_end_flow() {
    let now: u64 = 1_700_000_000;
    let cfg = test_config();
    let mut store = UserStore::new();

    let created = register(&mut store, &register_req("alice", "pw1", "a@x.com"))
        .expect("registration should succeed");
    assert_eq!(created.role, "user");

    let token = login(&store, &login_req("alice", "pw1"), &cfg, now)
        .expect("login with the registered password should succeed");

    assert!(matches!(
        require_role(&token, &store, "manager", &cfg, now),
        Err(AuthError::Authorization)
    ));
    assert!(require_role(&token, &store, "user", &cfg, now).is_ok());

    assert!(matches!(
        login(&store, &login_req("alice", "wrong"), &cfg, now),
        Err(AuthError::Unauthorized)
    ));
    assert!(matches!(
        login(&store, &login_req("mallory", "pw1"), &cfg, now),
        Err(AuthError::NotFound)
    ));
}

#[test]
fn login_token_carries_stored_identity() {
    let now: u64 = 1_700_000_000;
    let cfg = test_config();
    let mut store = UserStore::new();
    register(&mut store, &register_req("carol", "secret-pw", "c@x.com"))
        .expect("registration should succeed");

    let token = login(&store, &login_req("carol", "secret-pw"), &cfg, now)
        .expect("login should succeed");
    let claims = cartences::token::decode_jwt(&token, &cfg, now).expect("token should verify");
    assert_eq!(claims.sub, "0");
    assert_eq!(claims.username, "carol");
    assert_eq!(claims.role, "user");
}

#[test]
fn sentence_content_length_counts_characters() {
    let s = NewSentence {
        content: "人生得意須盡歡".to_string(),
        category: Some("poetry".to_string()),
        from_source: None,
        from_author: None,
    };
    assert_eq!(s.content_len(), 7);
    let ascii = NewSentence {
        content: "hello".to_string(),
        category: None,
        from_source: None,
        from_author: None,
    };
    assert_eq!(ascii.content_len(), 5);
}
