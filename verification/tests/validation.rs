use my_axum_app::error::AppError;
use my_axum_app::extractor::ValidatedJson;
use my_axum_app::features::user::model::{LoginRequest, RegisterRequest, UpdateProfileRequest};
use my_axum_app::validation::{check_length, validate, FieldError, Validate};

fn register(email: &str, password: &str, nickname: &str) -> RegisterRequest {
    RegisterRequest {
        email: email.to_string(),
        password: password.to_string(),
        nickname: nickname.to_string(),
    }
}

fn fields(errors: Vec<FieldError>) -> Vec<&'static str> {
    errors.iter().map(|e| e.field).collect()
}

#[test]
fn valid_registration_passes() {
    let r = register("alice@example.com", "password123", "Alice");
    assert!(r.field_errors().is_empty());
    assert_eq!(validate(&r), Ok(()));
}

#[test]
fn registration_reports_each_failed_field_in_order() {
    let r = register("not-an-email", "short", "");
    assert_eq!(fields(r.field_errors()), vec!["email", "password", "nickname"]);
    assert!(matches!(validate(&r), Err(AppError::Validation(_))));
}

#[test]
fn registration_single_failure_message() {
    let r = register("not-an-email", "password123", "Alice");
    assert_eq!(validate(&r), Err(AppError::Validation("email: 邮箱格式不正确".to_string())));
    let r = register("alice@example.com", "password123", &"x".repeat(33));
    assert_eq!(validate(&r), Err(AppError::Validation("nickname: 昵称长度需为 1-32 位".to_string())));
    let r = register("alice@example.com", &"p".repeat(65), "Alice");
    assert_eq!(validate(&r), Err(AppError::Validation("password: 密码长度需为 8-64 位".to_string())));
}

#[test]
fn lengths_count_characters() {
    assert!(check_length("密码密码密码密码", 8, 64));
    assert!(!check_length("密码密码密码密", 8, 64));
    assert!(check_length(&"x".repeat(32), 1, 32));
    assert!(!check_length("", 1, 32));
}

#[test]
fn login_checks_email_and_password_length() {
    let ok = LoginRequest { email: "a@b.co".to_string(), password: "12345678".to_string() };
    assert!(ok.field_errors().is_empty());
    let bad = LoginRequest { email: "a@b.co".to_string(), password: "1234567".to_string() };
    let errs = bad.field_errors();
    assert_eq!(errs.len(), 1);
    assert_eq!(errs[0].field, "password");
    assert_eq!(errs[0].code, "length");
    assert_eq!(errs[0].message, None);
    assert_eq!(errs[0].int_params, vec![("min", 8), ("max", 64)]);
    assert_eq!(errs[0].text_params, vec![("value", "1234567".to_string())]);
}

#[test]
fn failure_without_message_shows_check_and_parameters() {
    let bad = LoginRequest { email: "a@b.co".to_string(), password: "1234567".to_string() };
    let msg = match validate(&bad) {
        Err(AppError::Validation(m)) => m,
        other => panic!("unexpected {:?}", other),
    };
    assert!(msg.starts_with("password: Validation error: length ["), "{}", msg);
    assert!(msg.contains("\"min\": Number(8)"), "{}", msg);
    assert!(msg.contains("\"max\": Number(64)"), "{}", msg);
    assert!(msg.contains("\"value\": String(\"1234567\")"), "{}", msg);
}

#[test]
fn failures_carry_the_failed_value() {
    let r = register("not-an-email", "password123", "Alice");
    let errs = r.field_errors();
    assert_eq!(errs[0].text_params, vec![("value", "not-an-email".to_string())]);
    assert!(errs[0].int_params.is_empty());
    let u = UpdateProfileRequest { nickname: Some(String::new()), avatar_url: None };
    let errs = u.field_errors();
    assert_eq!(errs[0].int_params, vec![("min", 1), ("max", 32)]);
    assert_eq!(errs[0].text_params, vec![("value", String::new())]);
}

#[test]
fn profile_update_checks_only_given_fields() {
    let none = UpdateProfileRequest { nickname: None, avatar_url: None };
    assert!(none.field_errors().is_empty());
    let good = UpdateProfileRequest {
        nickname: Some("Bob".to_string()),
        avatar_url: Some("https://example.com/a.png".to_string()),
    };
    assert!(good.field_errors().is_empty());
    let bad = UpdateProfileRequest {
        nickname: Some(String::new()),
        avatar_url: Some("not a url".to_string()),
    };
    assert_eq!(fields(bad.field_errors()), vec!["nickname", "avatar_url"]);
    let bad_url = UpdateProfileRequest { nickname: None, avatar_url: Some("::".to_string()) };
    assert_eq!(
        validate(&bad_url),
        Err(AppError::Validation("avatar_url: 头像地址需为合法 URL".to_string()))
    );
}

#[test]
fn validated_json_accepts_or_refuses() {
    let ok = ValidatedJson::from_parsed(Ok(register("alice@example.com", "password123", "Alice")));
    assert_eq!(ok.unwrap().0.nickname, "Alice");
    let unreadable: Result<RegisterRequest, String> = Err("missing field `email`".to_string());
    assert_eq!(
        ValidatedJson::from_parsed(unreadable).unwrap_err(),
        AppError::BadRequest("missing field `email`".to_string())
    );
    let invalid = ValidatedJson::from_parsed(Ok(register("x", "password123", "Alice")));
    assert!(matches!(invalid.unwrap_err(), AppError::Validation(_)));
}

#[test]
fn several_failures_report_each_line() {
    let r = register("not-an-email", "short", "");
    let msg = match validate(&r) {
        Err(AppError::Validation(m)) => m,
        other => panic!("unexpected {:?}", other),
    };
    assert!(msg.contains("email: 邮箱格式不正确"));
    assert!(msg.contains("password: 密码长度需为 8-64 位"));
    assert!(msg.contains("nickname: 昵称长度需为 1-32 位"));
}
