use my_axum_app::error::{AppError, DbError};
use my_axum_app::features::user::repository::{row_or_not_found, search_pattern};
use my_axum_app::handlers::{health, hello};
use my_axum_app::response::ApiResponse;

#[test]
fn statuses_follow_the_error_kind() {
    assert_eq!(AppError::BadRequest("x".into()).status(), 400);
    assert_eq!(AppError::Validation("x".into()).status(), 400);
    assert_eq!(AppError::Unauthorized.status(), 401);
    assert_eq!(AppError::InvalidCredentials.status(), 401);
    assert_eq!(AppError::NotFound.status(), 404);
    assert_eq!(AppError::Conflict("x".into()).status(), 409);
    assert_eq!(AppError::Config("x".into()).status(), 500);
    assert_eq!(AppError::Internal("x".into()).status(), 500);
}

#[test]
fn messages_follow_the_error_kind() {
    assert_eq!(AppError::BadRequest("oops".into()).message(), "bad request: oops");
    assert_eq!(AppError::Validation("email: bad".into()).message(), "validation failed: email: bad");
    assert_eq!(AppError::Unauthorized.message(), "unauthorized");
    assert_eq!(AppError::InvalidCredentials.message(), "email or password is incorrect");
    assert_eq!(AppError::NotFound.message(), "not found");
    assert_eq!(AppError::Conflict("dup".into()).message(), "conflict: dup");
    assert_eq!(AppError::Config("bad".into()).message(), "configuration error: bad");
    assert_eq!(AppError::Internal("secret detail".into()).message(), "internal error");
}

#[test]
fn error_body_carries_status_and_message() {
    let b = AppError::Conflict("email already registered".into()).error_body();
    assert_eq!(b.code, 409);
    assert_eq!(b.message, "conflict: email already registered");
}

#[test]
fn database_errors_map_to_answers() {
    assert_eq!(AppError::from_db_error(DbError::RowNotFound), AppError::NotFound);
    assert_eq!(
        AppError::from_db_error(DbError::UniqueViolation),
        AppError::Conflict("resource already exists".into())
    );
    assert_eq!(
        AppError::from_db_error(DbError::ForeignKeyViolation),
        AppError::BadRequest("related resource missing".into())
    );
    assert_eq!(
        AppError::from_db_error(DbError::Other("pool timed out".into())),
        AppError::Internal("pool timed out".into())
    );
}

#[test]
fn envelope_ok_and_with_message() {
    let r = ApiResponse::ok(7u32);
    assert_eq!((r.code, r.message.as_str(), r.data), (0, "ok", 7));
    let r = ApiResponse::with_message("created".to_string(), "x");
    assert_eq!((r.code, r.message.as_str(), r.data), (0, "created", "x"));
}

#[test]
fn hello_and_health() {
    let r = hello();
    assert_eq!(r.code, 0);
    assert_eq!(r.message, "ok");
    assert_eq!(r.data.message, "Hello, World!");
    assert_eq!(health(), "ok");
}

#[test]
fn missing_row_is_not_found() {
    assert_eq!(row_or_not_found(None), Err(AppError::NotFound));
}

#[test]
fn search_pattern_wraps_keyword() {
    assert_eq!(search_pattern("ali"), "%ali%");
    assert_eq!(search_pattern(""), "%%");
}
