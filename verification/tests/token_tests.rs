use auth_core::config::Config;
use auth_core::errors::AuthError;
use auth_core::middleware::AuthMiddleware;
use auth_core::models::User;
use auth_core::roles::Role;
use auth_core::token::generate_jwt;
use auth_core::token::issue_reset_token;
use auth_core::token::issue_session_token;
use auth_core::token::validate_jwt;
use auth_core::token::validate_reset_token;

fn test_config() -> Config {
    Config {
        database_url: String::new(),
        secret_key: "a-test-signing-key".to_string(),
    }
}

fn sample_user(id: u128, role: Role) -> User {
    User {
        id,
        name: "Ana".to_string(),
        phone: "+100".to_string(),
        password_hash: String::new(),
        role,
        sms_verified: true,
        created_at: 0,
    }
}

const NOW: u64 = 1_700_000_000;

#[test]
fn issued_token_round_trips_through_the_validator() {
    let config = test_config();
    let user = sample_user(42, Role::Admin);
    let token = issue_session_token(&user, NOW, &config).unwrap();
    let service = AuthMiddleware.layer(&config);
    let header = format!("Bearer {token}");
    let identity = service.call(Some(&header), NOW).unwrap();
    assert_eq!(identity.subject, 42);
    assert_eq!(identity.role, Role::Admin);
}

#[test]
fn validate_jwt_returns_the_issued_claims() {
    let config = test_config();
    let user = sample_user(7, Role::Client);
    let token = issue_session_token(&user, NOW, &config).unwrap();
    let claims = validate_jwt(&token, &config, NOW).unwrap();
    assert_eq!(claims.exp, NOW + 3600);
    assert_eq!(claims.role, "client");
    assert_eq!(uuid::Uuid::parse_str(&claims.sub).unwrap().as_u128(), 7);
}

#[test]
fn expiry_is_a_strict_bound() {
    let config = test_config();
    let user = sample_user(7, Role::Client);
    let token = issue_session_token(&user, NOW, &config).unwrap();
    let exp = NOW + 3600;
    // One second before expiry the token is still valid.
    assert!(validate_jwt(&token, &config, exp - 1).is_ok());
    // At the expiry instant exactly, it is already rejected.
    assert_eq!(validate_jwt(&token, &config, exp).unwrap_err(), AuthError::TokenExpired);
    // Long past expiry (a day later), same rejection.
    assert_eq!(
        validate_jwt(&token, &config, NOW + 86_400).unwrap_err(),
        AuthError::TokenExpired
    );
    assert_eq!(AuthError::TokenExpired.status_code(), 401);
}

#[test]
fn any_signature_bit_flip_is_rejected() {
    let config = test_config();
    let user = sample_user(42, Role::Client);
    let token = issue_session_token(&user, NOW, &config).unwrap();
    assert!(validate_jwt(&token, &config, NOW).is_ok());
    let dot = token.rfind('.').unwrap();
    let bytes = token.as_bytes();
    let mut mutations = 0u32;
    for i in (dot + 1)..bytes.len() {
        for bit in 0..8 {
            let mut mutated = bytes.to_vec();
            mutated[i] ^= 1 << bit;
            if let Ok(candidate) = String::from_utf8(mutated) {
                assert_ne!(candidate, token);
                assert!(validate_jwt(&candidate, &config, NOW).is_err());
                mutations += 1;
            }
        }
    }
    assert!(mutations > 0);
}

#[test]
fn a_foreign_secret_does_not_validate() {
    let config = test_config();
    let other = Config {
        database_url: String::new(),
        secret_key: "another-signing-key".to_string(),
    };
    let user = sample_user(42, Role::Client);
    let token = issue_session_token(&user, NOW, &config).unwrap();
    assert_eq!(validate_jwt(&token, &other, NOW).unwrap_err(), AuthError::InvalidToken);
}

#[test]
fn a_reset_token_is_not_a_session_token() {
    let config = test_config();
    let user = sample_user(42, Role::Client);
    let token = issue_reset_token(&user, NOW, &config).unwrap();
    // Well before its own (short) expiry, it is still no session token.
    assert_eq!(validate_jwt(&token, &config, NOW).unwrap_err(), AuthError::InvalidToken);
}

#[test]
fn a_reset_token_redeems_only_as_a_reset_token() {
    let config = test_config();
    let user = sample_user(42, Role::Client);
    let token = issue_reset_token(&user, NOW, &config).unwrap();
    let claims = validate_reset_token(&token, &config, NOW).unwrap();
    assert_eq!(claims.exp, NOW + 300);
    assert_eq!(uuid::Uuid::parse_str(&claims.sub).unwrap().as_u128(), 42);
    // A session token carries no reset purpose, so it does not redeem.
    let session = issue_session_token(&user, NOW, &config).unwrap();
    assert_eq!(
        validate_reset_token(&session, &config, NOW).unwrap_err(),
        AuthError::InvalidToken
    );
    // The reset lifetime is short and its expiry strict.
    assert_eq!(
        validate_reset_token(&token, &config, NOW + 300).unwrap_err(),
        AuthError::TokenExpired
    );
    assert!(validate_reset_token(&token, &config, NOW + 299).is_ok());
}

#[test]
fn generate_jwt_uses_the_clock() {
    let config = test_config();
    let user = sample_user(9, Role::Client);
    let token = generate_jwt(&user, &config).unwrap();
    let now = std::time::SystemTime::now()
        .duration_since(std::time::UNIX_EPOCH)
        .unwrap()
        .as_secs();
    let claims = validate_jwt(&token, &config, now).unwrap();
    assert!(claims.exp >= now + 3590 && claims.exp <= now + 3610);
}

#[test]
fn a_token_with_an_unparseable_subject_is_a_bad_request() {
    let config = test_config();
    let service = AuthMiddleware.layer(&config);
    let token = sign_raw_claims("not-a-uuid", NOW + 3600, "client", &config);
    let header = format!("Bearer {token}");
    let err = service.call(Some(&header), NOW).unwrap_err();
    assert_eq!(err, AuthError::InvalidSubject);
    assert_eq!(err.status_code(), 400);
}

#[test]
fn a_token_with_an_unknown_role_is_rejected() {
    let config = test_config();
    let service = AuthMiddleware.layer(&config);
    let sub = uuid::Uuid::from_u128(42).to_string();
    let token = sign_raw_claims(&sub, NOW + 3600, "superuser", &config);
    let header = format!("Bearer {token}");
    assert_eq!(service.call(Some(&header), NOW).unwrap_err(), AuthError::InvalidToken);
}

/// Signs arbitrary claims with the test secret, bypassing the library's
/// issuer, to probe the validator's rejection paths.
fn sign_raw_claims(sub: &str, exp: u64, role: &str, config: &Config) -> String {
    let mut claims = serde_json::Map::new();
    claims.insert("sub".to_string(), serde_json::Value::String(sub.to_string()));
    claims.insert("exp".to_string(), serde_json::Value::from(exp));
    claims.insert("role".to_string(), serde_json::Value::String(role.to_string()));
    jsonwebtoken::encode(
        &jsonwebtoken::Header::new(jsonwebtoken::Algorithm::HS256),
        &serde_json::Value::Object(claims),
        &jsonwebtoken::EncodingKey::from_secret(config.secret_key.as_bytes()),
    )
    .unwrap()
}
