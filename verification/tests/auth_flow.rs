use my_axum_app::claims::{parse_claims, render_claims};
use my_axum_app::error::AppError;
use my_axum_app::extractor::CurrentUser;
use my_axum_app::features::user::model::{LoginRequest, RegisterRequest, User, UserRow};
use my_axum_app::features::user::service::{
    decide_login, decide_registration, issue_token, issue_token_at,
};
use my_axum_app::middleware::{authenticate, bearer_token};
use my_axum_app::security::{
    claims_of, hash_password, parse_token, sign_token, sign_token_until, token_expiry, verify_password, Claims,
};

const SECRET: &str = "0123456789abcdef-secret";
const ID: u128 = 0x550e8400_e29b_41d4_a716_446655440000;

fn now() -> i64 {
    chrono::Utc::now().timestamp()
}

fn row(password_hash: &str, status: i16) -> UserRow {
    UserRow {
        id: ID,
        email: "alice@example.com".to_string(),
        password_hash: password_hash.to_string(),
        nickname: "Alice".to_string(),
        avatar_url: None,
        status,
        created_at: 1_700_000_000_000_000,
        updated_at: 1_700_000_000_000_000,
    }
}

#[test]
fn claims_text_renders_and_reads_back() {
    let text = render_claims("550e8400-e29b-41d4-a716-446655440000", 1725029869);
    assert_eq!(text, r#"{"sub":"550e8400-e29b-41d4-a716-446655440000","exp":1725029869}"#);
    assert_eq!(
        parse_claims(&text),
        Some(("550e8400-e29b-41d4-a716-446655440000".to_string(), 1725029869))
    );
    assert_eq!(parse_claims(r#"{"sub":"a","exp":-5}"#), Some(("a".to_string(), -5)));
}

#[test]
fn claims_text_refuses_other_shapes() {
    for t in [
        "",
        "{}",
        r#"{"sub":"a","exp":007}"#,
        r#"{"sub":"a","exp":+7}"#,
        r#"{"sub":"a","exp":7} "#,
        r#"{"exp":7,"sub":"a"}"#,
        r#"{"sub":"a""exp":7}"#,
        r#"{"sub":"a","exp":}"#,
    ] {
        assert_eq!(parse_claims(t), None, "input {:?}", t);
    }
}

#[test]
fn token_expiry_adds_hours() {
    assert_eq!(token_expiry(1000, 24), Some(1000 + 24 * 3600));
    assert_eq!(token_expiry(1000, -1), Some(1000 - 3600));
    assert_eq!(token_expiry(i64::MAX - 10, 1), None);
    assert_eq!(token_expiry(0, i64::MAX), None);
}

#[test]
fn signed_token_reads_back_its_claims() {
    let exp = now() + 3600;
    let token = sign_token_until(SECRET, ID, exp).unwrap();
    assert_eq!(parse_token(SECRET, &token), Ok(Claims { sub: ID, exp }));
    // The claims are those of a standard HS256 token.
    let data = jsonwebtoken::decode::<serde_json::Value>(
        &token,
        &jsonwebtoken::DecodingKey::from_secret(SECRET.as_bytes()),
        &jsonwebtoken::Validation::default(),
    )
    .unwrap();
    assert_eq!(data.claims["sub"], "550e8400-e29b-41d4-a716-446655440000");
    assert_eq!(data.claims["exp"], exp);
}

#[test]
fn token_with_other_secret_or_expired_is_refused() {
    let token = sign_token_until(SECRET, ID, now() + 3600).unwrap();
    assert_eq!(parse_token("another-secret-of-length", &token), Err(AppError::Unauthorized));
    let old = sign_token_until(SECRET, ID, now() - 3600).unwrap();
    assert_eq!(parse_token(SECRET, &old), Err(AppError::Unauthorized));
    assert_eq!(parse_token(SECRET, "not.a.token"), Err(AppError::Unauthorized));
}

#[test]
fn sign_token_uses_hours_from_now() {
    let before = now();
    let token = sign_token(SECRET, ID, 24).unwrap();
    let claims = parse_token(SECRET, &token).unwrap();
    assert_eq!(claims.sub, ID);
    assert!(claims.exp >= before + 24 * 3600 && claims.exp <= now() + 24 * 3600);
}

#[test]
fn issue_token_at_answers_token_expiry_and_user() {
    let user = User::from(row("h", 1));
    let t = now();
    let resp = issue_token_at(user.clone(), SECRET, 2, t).unwrap();
    assert_eq!(resp.user, user);
    assert_eq!(resp.expires_at, t + 7200);
    assert_eq!(parse_token(SECRET, &resp.token), Ok(Claims { sub: ID, exp: t + 7200 }));
    // A token that is already past its expiry does not read back.
    assert_eq!(issue_token_at(user.clone(), SECRET, -2, t), Err(AppError::Unauthorized));
    assert!(matches!(issue_token_at(user, SECRET, i64::MAX, t), Err(AppError::Internal(_))));
}

#[test]
fn issued_token_authenticates_its_user() {
    let user = User::from(row("h", 1));
    let resp = issue_token(user, SECRET, 24).unwrap();
    let header = format!("Bearer {}", resp.token);
    assert_eq!(authenticate(Some(header.as_bytes()), SECRET), Ok(ID));
}

#[test]
fn authentication_refuses_missing_or_malformed_headers() {
    assert_eq!(authenticate(None, SECRET), Err(AppError::Unauthorized));
    assert_eq!(authenticate(Some(b"Basic abc"), SECRET), Err(AppError::Unauthorized));
    assert_eq!(authenticate(Some(b"Bearer "), SECRET), Err(AppError::Unauthorized));
    assert_eq!(authenticate(Some(b"Bearer x.y.z"), SECRET), Err(AppError::Unauthorized));
}

#[test]
fn bearer_token_reads_the_header() {
    assert_eq!(bearer_token(Some(b"Bearer abc")), Some("abc".to_string()));
    assert_eq!(bearer_token(Some(b"Bearer a\tb")), Some("a\tb".to_string()));
    assert_eq!(bearer_token(Some(b"Bearer ")), None);
    assert_eq!(bearer_token(Some(b"bearer abc")), None);
    assert_eq!(bearer_token(Some(b"Bearerabc")), None);
    assert_eq!(bearer_token(Some(b"Bearer ab\x7f")), None);
    assert_eq!(bearer_token(Some("Bearer é".as_bytes())), None);
    assert_eq!(bearer_token(None), None);
}

#[test]
fn current_user_needs_an_id() {
    assert_eq!(CurrentUser::from_extension(Some(ID)), Ok(CurrentUser(ID)));
    assert_eq!(CurrentUser::from_extension(None), Err(AppError::Unauthorized));
}

#[test]
fn password_hash_verifies_its_password_only() {
    let h = hash_password("password123").unwrap();
    assert!(h.starts_with("$argon2id$"));
    assert_eq!(verify_password("password123", &h), Ok(true));
    assert_eq!(verify_password("password124", &h), Ok(false));
    assert!(verify_password("password123", "not a phc string").is_err());
}

#[test]
fn registration_refuses_a_registered_email() {
    let req = RegisterRequest {
        email: "alice@example.com".to_string(),
        password: "password123".to_string(),
        nickname: "Alice".to_string(),
    };
    let existing = Some(row("h", 1));
    assert_eq!(
        decide_registration(&existing, req),
        Err(AppError::Conflict("email already registered".to_string()))
    );
}

#[test]
fn registration_then_login_succeeds() {
    let req = RegisterRequest {
        email: "alice@example.com".to_string(),
        password: "password123".to_string(),
        nickname: "Alice".to_string(),
    };
    let new = decide_registration(&None, req).unwrap();
    assert_eq!(new.email, "alice@example.com");
    assert_eq!(new.nickname, "Alice");
    assert_ne!(new.password_hash, "password123");
    let stored = row(&new.password_hash, 1);
    let login = LoginRequest {
        email: "alice@example.com".to_string(),
        password: "password123".to_string(),
    };
    let user = decide_login(Some(stored.clone()), &login).unwrap();
    assert_eq!(user, User::from(stored));
}

#[test]
fn unknown_email_and_wrong_password_answer_alike() {
    let h = hash_password("password123").unwrap();
    let wrong = LoginRequest {
        email: "alice@example.com".to_string(),
        password: "password999".to_string(),
    };
    assert_eq!(decide_login(None, &wrong), Err(AppError::InvalidCredentials));
    assert_eq!(decide_login(Some(row(&h, 1)), &wrong), Err(AppError::InvalidCredentials));
}

#[test]
fn disabled_account_cannot_log_in() {
    let h = hash_password("password123").unwrap();
    let login = LoginRequest {
        email: "alice@example.com".to_string(),
        password: "password123".to_string(),
    };
    assert_eq!(
        decide_login(Some(row(&h, 0)), &login),
        Err(AppError::BadRequest("account is disabled".to_string()))
    );
}

#[test]
fn corrupt_stored_hash_is_internal() {
    let login = LoginRequest {
        email: "alice@example.com".to_string(),
        password: "password123".to_string(),
    };
    assert!(matches!(decide_login(Some(row("garbage", 1)), &login), Err(AppError::Internal(_))));
}

#[test]
fn public_user_drops_only_the_hash() {
    let r = row("secret-hash", 1);
    let u = User::from(r.clone());
    assert_eq!(u.id, r.id);
    assert_eq!(u.email, r.email);
    assert_eq!(u.nickname, r.nickname);
    assert_eq!(u.avatar_url, r.avatar_url);
    assert_eq!(u.status, r.status);
    assert_eq!(u.created_at, r.created_at);
    assert_eq!(u.updated_at, r.updated_at);
}

#[test]
fn claims_of_reads_only_a_uuid_subject() {
    let good = render_claims("550e8400-e29b-41d4-a716-446655440000", 42);
    assert_eq!(claims_of(&good), Ok(Claims { sub: ID, exp: 42 }));
    let not_uuid = render_claims("alice", 42);
    assert_eq!(claims_of(&not_uuid), Err(AppError::Unauthorized));
    assert_eq!(claims_of("{}"), Err(AppError::Unauthorized));
}

#[test]
fn signed_token_with_a_non_uuid_subject_is_refused() {
    let mut claims = serde_json::Map::new();
    claims.insert("sub".to_string(), serde_json::Value::from("alice"));
    claims.insert("exp".to_string(), serde_json::Value::from(now() + 3600));
    let token = jsonwebtoken::encode(
        &jsonwebtoken::Header::default(),
        &claims,
        &jsonwebtoken::EncodingKey::from_secret(SECRET.as_bytes()),
    )
    .unwrap();
    assert_eq!(parse_token(SECRET, &token), Err(AppError::Unauthorized));
}

#[test]
fn signing_always_succeeds() {
    for (id, exp) in [(0u128, 0i64), (u128::MAX, i64::MAX), (ID, i64::MIN)] {
        assert!(sign_token_until(SECRET, id, exp).is_ok());
        assert!(sign_token_until("", id, exp).is_ok());
    }
}
