use my_axum_app::config::{env_flag_value, EnvValues, Settings};
use my_axum_app::error::AppError;
use my_axum_app::logging::filter_directives;
use my_axum_app::numeric::{i64_to_string, parse_i64_in};
use my_axum_app::text::chars_of;

fn parse(s: &str) -> Option<i64> {
    let cs = chars_of(s);
    parse_i64_in(&cs, 0, cs.len())
}

fn vars(db: Option<&str>, secret: Option<&str>) -> EnvValues {
    EnvValues {
        database_url: db.map(|s| s.to_string()),
        jwt_secret: secret.map(|s| s.to_string()),
        app_addr: None,
        jwt_expiration_hours: None,
        rust_log: None,
        log_json: None,
    }
}

#[test]
fn parse_i64_follows_str_parse() {
    for s in [
        "0", "42", "-42", "+42", "007", "-0", "9223372036854775807", "-9223372036854775808",
        "9223372036854775808", "-9223372036854775809", "", "+", "-", " 1", "1 ", "1a", "--1",
        "+-1", "99999999999999999999999", "00000000000000000000000000000000000012",
    ] {
        assert_eq!(parse(s), s.parse::<i64>().ok(), "input {:?}", s);
    }
}

#[test]
fn parse_i64_in_reads_a_range() {
    let cs = chars_of("ab-17cd");
    assert_eq!(parse_i64_in(&cs, 2, 5), Some(-17));
    assert_eq!(parse_i64_in(&cs, 2, 2), None);
}

#[test]
fn i64_to_string_matches_display_and_parses_back() {
    for x in [0i64, 1, 9, 10, -1, -10, 123456789, i64::MAX, i64::MIN, -9223372036854775807] {
        let s = i64_to_string(x);
        assert_eq!(s, x.to_string());
        assert_eq!(parse(&s), Some(x));
    }
}

#[test]
fn env_flag_accepts_one_and_true_in_any_case() {
    assert!(env_flag_value(Some("1")));
    assert!(env_flag_value(Some("true")));
    assert!(env_flag_value(Some("TRUE")));
    assert!(env_flag_value(Some("TrUe")));
    assert!(!env_flag_value(Some("0")));
    assert!(!env_flag_value(Some("yes")));
    assert!(!env_flag_value(Some("true ")));
    assert!(!env_flag_value(Some("11")));
    assert!(!env_flag_value(Some("")));
    assert!(!env_flag_value(None));
}

#[test]
fn settings_require_database_url() {
    let r = Settings::from_env_values(vars(None, Some("0123456789abcdef")));
    assert_eq!(r.unwrap_err(), AppError::Config("DATABASE_URL 未设置".to_string()));
}

#[test]
fn settings_require_jwt_secret() {
    let r = Settings::from_env_values(vars(Some("postgres://x"), None));
    assert_eq!(r.unwrap_err(), AppError::Config("JWT_SECRET 未设置".to_string()));
}

#[test]
fn settings_require_sixteen_byte_secret() {
    let r = Settings::from_env_values(vars(Some("postgres://x"), Some("0123456789abcde")));
    assert_eq!(r.unwrap_err(), AppError::Config("JWT_SECRET 长度至少 16 位".to_string()));
    // Six characters of three bytes each: 18 bytes, enough.
    let r = Settings::from_env_values(vars(Some("postgres://x"), Some("密钥密钥密钥")));
    assert!(r.is_ok());
}

#[test]
fn settings_fill_defaults() {
    let s = Settings::from_env_values(vars(Some("postgres://x"), Some("0123456789abcdef"))).unwrap();
    assert_eq!(s.addr, "127.0.0.1:3000");
    assert_eq!(s.database_url, "postgres://x");
    assert_eq!(s.jwt_secret, "0123456789abcdef");
    assert_eq!(s.jwt_expiration_hours, 24);
    assert_eq!(s.log_level, "info");
    assert!(!s.log_json);
}

#[test]
fn settings_take_given_values() {
    let v = EnvValues {
        database_url: Some("postgres://db".to_string()),
        jwt_secret: Some("a-very-long-secret-value".to_string()),
        app_addr: Some("0.0.0.0:8080".to_string()),
        jwt_expiration_hours: Some("48".to_string()),
        rust_log: Some("debug".to_string()),
        log_json: Some("True".to_string()),
    };
    let s = Settings::from_env_values(v).unwrap();
    assert_eq!(s.addr, "0.0.0.0:8080");
    assert_eq!(s.jwt_expiration_hours, 48);
    assert_eq!(s.log_level, "debug");
    assert!(s.log_json);
}

#[test]
fn settings_ignore_unparsable_expiration() {
    let mut v = vars(Some("postgres://x"), Some("0123456789abcdef"));
    v.jwt_expiration_hours = Some("two days".to_string());
    assert_eq!(Settings::from_env_values(v).unwrap().jwt_expiration_hours, 24);
}

#[test]
fn log_filter_appends_quieting_rules() {
    assert_eq!(
        filter_directives(None, "info"),
        "info,tower_http=debug,sqlx=warn,sqlx_postgres=warn"
    );
    assert_eq!(
        filter_directives(Some("debug".to_string()), "info"),
        "debug,tower_http=debug,sqlx=warn,sqlx_postgres=warn"
    );
}
