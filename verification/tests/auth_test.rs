use kanban_backend::config::Environment;
use kanban_backend::db::indexes::{create_performance_indexes, refresh_token_indexes, user_indexes};
use kanban_backend::models::users::User;
use kanban_backend::models::auth::RefreshToken;
use kanban_backend::oid::ObjectId;
use kanban_backend::services::auth;
use kanban_backend::utils::errors::CustomError;
use kanban_backend::utils::jwt::{claims_text, AuthBearer, DecodedClaims, JWTMethods, JWTValidator, TokenFailure};

#[test]
fn refresh_token_hash_is_sha256_hex() {
    assert_eq!(
        JWTValidator::hash_refresh_token("abc"),
        "ba7816bf8f01cfea414140de5dae2223b00361a396177a9cb410ff61f20015ad"
    );
    assert_eq!(
        JWTValidator::hash_refresh_token(""),
        "e3b0c44298fc1c149afbf4c8996fb92427ae41e4649b934ca495991b7852b855"
    );
    assert_eq!(JWTValidator::hash_refresh_token("abc"), JWTValidator::hash_refresh_token("abc"));
}

#[test]
fn claims_text_matches_serde_layout() {
    assert_eq!(
        claims_text("a\"b@x.io", 1700043200, "id-1"),
        r#"{"sub":"a\"b@x.io","exp":1700043200,"refresh_token_id":"id-1"}"#
    );
    assert_eq!(claims_text("", 0, ""), r#"{"sub":"","exp":0,"refresh_token_id":""}"#);
}

fn decode(token: &str, secret: &str) -> serde_json::Value {
    let mut validation = jsonwebtoken::Validation::default();
    validation.validate_exp = false;
    jsonwebtoken::decode::<serde_json::Value>(
        token,
        &jsonwebtoken::DecodingKey::from_secret(secret.as_bytes()),
        &validation,
    )
    .expect("the token decodes with the same secret")
    .claims
}

#[test]
fn access_token_carries_the_claims() {
    let token = JWTValidator::create_access_token_at("ann@x.io", "rid", "s3cret", 1_700_000_000);
    let claims = decode(&token, "s3cret");
    assert_eq!(claims["sub"], "ann@x.io");
    assert_eq!(claims["exp"], 1_700_043_200u64);
    assert_eq!(claims["refresh_token_id"], "rid");
    // the same inputs give the same token
    assert_eq!(token, JWTValidator::create_access_token_at("ann@x.io", "rid", "s3cret", 1_700_000_000));
    // a different secret does not verify
    let mut validation = jsonwebtoken::Validation::default();
    validation.validate_exp = false;
    assert!(jsonwebtoken::decode::<serde_json::Value>(
        &token,
        &jsonwebtoken::DecodingKey::from_secret(b"other"),
        &validation
    )
    .is_err());
}

#[test]
fn new_session_tokens() {
    let (access, refresh) = JWTValidator::create_jwt("bob@x.io", "k");
    assert_eq!(refresh.len(), 36);
    let claims = decode(&access, "k");
    assert_eq!(claims["sub"], "bob@x.io");
    let token = JWTValidator::create_access_token("bob@x.io", "r", "k");
    assert_eq!(decode(&token, "k")["refresh_token_id"], "r");
}

#[test]
fn bearer_header_parsing() {
    assert_eq!(AuthBearer::token_from_header(Some("Bearer abc.def")).unwrap(), "abc.def");
    assert_eq!(AuthBearer::token_from_header(Some("Bearer ")).unwrap(), "");
    let (status, msg) = AuthBearer::token_from_header(None).unwrap_err();
    assert_eq!((status, msg.as_str()), (401, "Missing authorization header"));
    let (status, msg) = AuthBearer::token_from_header(Some("Basic abc")).unwrap_err();
    assert_eq!((status, msg.as_str()), (401, "Invalid token format"));
    assert_eq!(AuthBearer::rejection(TokenFailure::ExpiredSignature).1, "Token expired");
    assert_eq!(AuthBearer::rejection(TokenFailure::InvalidToken).1, "Invalid token");
    assert_eq!(AuthBearer::rejection(TokenFailure::InvalidSignature).1, "Invalid signature");
    assert_eq!(AuthBearer::rejection(TokenFailure::Other), (401, "Token validation failed".to_string()));
}

#[test]
fn password_hash_then_login() {
    let hash = auth::hash_password("testpw123").unwrap();
    assert!(hash.starts_with("$2b$04$"));
    assert_eq!(hash.len(), 60);
    assert_ne!(hash, "testpw123");
    let user = auth::signup_user("test".to_string(), "test@gmail.com".to_string(), hash);
    assert_eq!(user.teams, vec!["LJY Members"]);
    let logged = auth::login_check(Some(user), "testpw123").unwrap();
    assert_eq!(logged.email, "test@gmail.com");
    let hash = auth::hash_password("testpw123").unwrap();
    let user = auth::signup_user("t".to_string(), "t@x".to_string(), hash);
    match auth::login_check(Some(user), "wrong") {
        Err(CustomError::Authentication(m)) => assert_eq!(m, "Invalid credentials"),
        other => panic!("unexpected {:?}", other),
    }
    match auth::login_check(None, "x") {
        Err(CustomError::Authentication(m)) => assert_eq!(m, "Invalid credentials"),
        other => panic!("unexpected {:?}", other),
    }
    let broken = User::create("b".to_string(), "b@x".to_string(), "not a hash".to_string(), vec![]);
    match auth::login_check(Some(broken), "x") {
        Err(CustomError::Server(m)) => assert!(m.starts_with("Password verification failed: ")),
        other => panic!("unexpected {:?}", other),
    }
}

#[test]
fn session_rules() {
    assert!(!auth::must_evict_oldest_session(0));
    assert!(!auth::must_evict_oldest_session(2));
    assert!(auth::must_evict_oldest_session(3));
    assert!(auth::must_evict_oldest_session(4));
    assert!(auth::require_new_user(false).is_ok());
    match auth::require_new_user(true) {
        Err(CustomError::Conflict(m)) => assert_eq!(m, "Username/email already in use"),
        other => panic!("unexpected {:?}", other),
    }
    let r = auth::auth_response("a".to_string(), "b".to_string());
    assert_eq!(r.expires_in, 43200);
    let stored = auth::save_refresh_token("ann@x.io", "tok");
    assert_eq!(stored.user_email, "ann@x.io");
    assert_eq!(stored.token_hash, JWTValidator::hash_refresh_token("tok"));
    assert_eq!(stored.expires_at - stored.created_at, 7 * 24 * 60 * 60);
    assert!(auth::is_active(&stored, stored.created_at));
    assert!(!auth::is_active(&stored, stored.expires_at));
}

#[test]
fn refreshing_an_access_token() {
    match auth::refresh_access_token(None, "tok".to_string(), "k") {
        Err(CustomError::Authentication(m)) => assert_eq!(m, "Invalid or expired refresh token"),
        other => panic!("unexpected {:?}", other),
    }
    let stored = RefreshToken {
        id: ObjectId::parse_str("507f1f77bcf86cd799439011").unwrap(),
        user_email: "ann@x.io".to_string(),
        token_hash: JWTValidator::hash_refresh_token("tok"),
        expires_at: 10,
        created_at: 0,
    };
    let resp = auth::refresh_access_token(Some(stored), "tok".to_string(), "k").unwrap();
    assert_eq!(resp.refresh_token, "tok");
    assert_eq!(resp.expires_in, 43200);
    let claims = decode(&resp.access_token, "k");
    assert_eq!(claims["sub"], "ann@x.io");
    assert_eq!(claims["refresh_token_id"], "507f1f77bcf86cd799439011");
}

#[test]
fn errors_map_to_status_and_body() {
    let cases = vec![
        (CustomError::Database("d".to_string()), 500, "DATABASE_ERROR", "Database operation failed", "Database error: d"),
        (CustomError::Authentication("a".to_string()), 401, "AUTHENTICATION_ERROR", "Invalid email or password", "Authentication error: a"),
        (CustomError::Forbidden("f".to_string()), 403, "FORBIDDEN", "Access denied", "Forbidden: f"),
        (CustomError::Server("s".to_string()), 500, "SERVER_ERROR", "Internal server error", "Server error: s"),
        (CustomError::NotFound("n".to_string()), 404, "NOT_FOUND", "Resource not found", "Not found: n"),
        (CustomError::Conflict("c".to_string()), 409, "CONFLICT", "Resource conflict", "Conflict: c"),
        (CustomError::MongoError("m".to_string()), 500, "DATABASE_ERROR", "Database operation failed", "MongoDB error: m"),
        (CustomError::OIDParseError("o".to_string()), 400, "INVALID_ID", "Invalid ID format", "ObjectId parsing error: o"),
    ];
    for (e, status, code, summary, text) in cases {
        assert_eq!(e.to_status_code(), status);
        let body = e.to_error_response_at(42);
        assert!(!body.success);
        assert_eq!(body.error.code, code);
        assert_eq!(body.error.message, summary);
        assert_eq!(body.error.retry_after, None);
        assert_eq!(body.timestamp, 42);
        assert_eq!(e.to_string(), text);
        let now = e.to_error_response();
        assert!(now.timestamp > 1_600_000_000);
    }
    let from: CustomError = String::from("boom").into();
    assert_eq!(from.to_string(), "Server error: boom");
    let body = CustomError::NotFound("Team not found".to_string()).to_error_response_at(1);
    assert_eq!(body.error.details, Some("Team not found".to_string()));
}

#[test]
fn environment_selection() {
    assert_eq!(Environment::from_name("DEV"), Some(Environment::Dev));
    assert_eq!(Environment::from_name("PROD"), Some(Environment::Prod));
    assert_eq!(Environment::from_name("TEST"), Some(Environment::Test));
    assert_eq!(Environment::from_name("dev"), None);
    assert_eq!(Environment::from_setting(None), Environment::Dev);
    assert_eq!(Environment::from_setting(Some("PROD".to_string())), Environment::Prod);
    assert_eq!(Environment::from_setting(Some("staging".to_string())), Environment::Dev);
    assert_eq!(Environment::Test.database_uri(None), Some(String::new()));
    assert_eq!(Environment::Prod.database_uri(None), None);
    assert_eq!(Environment::Dev.database_uri(Some("mongodb://h".to_string())), Some("mongodb://h".to_string()));
}

#[test]
fn index_plans_create_only_what_is_missing() {
    let names: Vec<String> = user_indexes().iter().map(|p| p.name()).collect();
    assert_eq!(names, vec!["username_1", "email_1", "username_1_email_1"]);
    let names: Vec<String> = refresh_token_indexes().iter().map(|p| p.name()).collect();
    assert_eq!(names, vec!["user_email_1_expires_at_1", "token_hash_1"]);
    let existing = vec!["_id_".to_string(), "email_1".to_string()];
    let missing = create_performance_indexes(&existing, user_indexes());
    let missing_names: Vec<String> = missing.iter().map(|p| p.name()).collect();
    assert_eq!(missing_names, vec!["username_1", "username_1_email_1"]);
    assert_eq!(missing[0].what, "username index");
    let mut grown = existing.clone();
    grown.extend(missing_names);
    assert!(create_performance_indexes(&grown, user_indexes()).is_empty());
}

#[test]
fn bearer_tokens_are_checked_under_the_secret() {
    let (access, _) = JWTValidator::create_jwt("carol@x.io", "right");
    let header = format!("Bearer {access}");
    assert_eq!(AuthBearer::authenticate(Some(&header), "right"), Ok("carol@x.io".to_string()));
    assert_eq!(
        AuthBearer::authenticate(Some(&header), "wrong"),
        Err((401, "Invalid signature".to_string()))
    );
    assert_eq!(
        AuthBearer::authenticate(None, "right"),
        Err((401, "Missing authorization header".to_string()))
    );
    assert_eq!(
        AuthBearer::authenticate(Some(access.as_str()), "right"),
        Err((401, "Invalid token format".to_string()))
    );
    assert_eq!(
        AuthBearer::authenticate(Some("Bearer not-a-token"), "right"),
        Err((401, "Invalid token".to_string()))
    );
    let old = JWTValidator::create_access_token_at("carol@x.io", "rid", "right", 1_000_000);
    assert_eq!(
        AuthBearer::authenticate(Some(&format!("Bearer {old}")), "right"),
        Err((401, "Token expired".to_string()))
    );
}

#[test]
fn bearer_outcome_needs_every_claim() {
    let full = DecodedClaims { sub: Some("a".to_string()), exp: Some(1), refresh_token_id: Some("r".to_string()) };
    assert_eq!(AuthBearer::bearer_outcome(Ok(full)), Ok("a".to_string()));
    let partial = DecodedClaims { sub: Some("a".to_string()), exp: Some(1), refresh_token_id: None };
    assert_eq!(AuthBearer::bearer_outcome(Ok(partial)), Err((401, "Token validation failed".to_string())));
    assert_eq!(
        AuthBearer::bearer_outcome(Err(TokenFailure::ExpiredSignature)),
        Err((401, "Token expired".to_string()))
    );
}

#[test]
fn claims_are_read_before_the_expiry() {
    let mut claims = serde_json::Map::new();
    claims.insert("sub".to_string(), serde_json::Value::from("dan@x.io"));
    claims.insert("exp".to_string(), serde_json::Value::from(1_000u64));
    let key = jsonwebtoken::EncodingKey::from_secret(b"k");
    let token = jsonwebtoken::encode(&jsonwebtoken::Header::default(), &claims, &key).unwrap();
    assert_eq!(
        AuthBearer::authenticate(Some(&format!("Bearer {token}")), "k"),
        Err((401, "Token validation failed".to_string()))
    );
    claims.insert("refresh_token_id".to_string(), serde_json::Value::from("r"));
    let token = jsonwebtoken::encode(&jsonwebtoken::Header::default(), &claims, &key).unwrap();
    assert_eq!(
        AuthBearer::authenticate(Some(&format!("Bearer {token}")), "k"),
        Err((401, "Token expired".to_string()))
    );
}
