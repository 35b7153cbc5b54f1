//! The computing parts of user storage: what a missing row answers, and the
//! pattern of a nickname search. The queries themselves run against the
//! database outside this library.

use vstd::prelude::*;

use super::model::UserRow;
use crate::error::AppError;

verus! {

/// The columns every user query returns, in order.
pub const COLUMNS: &'static str =
    "id, email, password_hash, nickname, avatar_url, status, created_at, updated_at";

/// A lookup by id (or an update) that found no row answers `NotFound`.
pub fn row_or_not_found(row: Option<UserRow>) -> (r: Result<UserRow, AppError>)
    ensures
        row matches Some(x) ==> r == Ok::<UserRow, AppError>(x),
        row is None ==> r == Err::<UserRow, AppError>(AppError::NotFound),
{
    match row {
        Some(x) => Ok(x),
        None => Err(AppError::NotFound),
    }
}

/// The `ILIKE` pattern that matches nicknames containing `keyword`.
pub fn search_pattern(keyword: &str) -> (r: String)
    ensures
        r@ == "%"@ + keyword@ + "%"@,
{
    String::from_str("%").concat(keyword).concat("%")
}

} // verus!
