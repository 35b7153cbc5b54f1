//! What request handlers extract: the signed-in user, and a JSON body that
//! passed its field checks.

use vstd::prelude::*;

use crate::error::AppError;
use crate::validation::{failure_line, occurs_in, validate, Validate};

verus! {

/// The id of the signed-in user, which authentication left on the request.
#[derive(Debug, Clone, Copy, PartialEq, Eq)]
pub struct CurrentUser(pub u128);

impl CurrentUser {
    /// The signed-in user, from the id that authentication stored on the
    /// request; a request without one is `Unauthorized`.
    pub fn from_extension(id: Option<u128>) -> (r: Result<CurrentUser, AppError>)
        ensures
            id matches Some(x) ==> r == Ok::<CurrentUser, AppError>(CurrentUser(x)),
            id is None ==> r == Err::<CurrentUser, AppError>(AppError::Unauthorized),
    {
        match id {
            Some(x) => Ok(CurrentUser(x)),
            None => Err(AppError::Unauthorized),
        }
    }
}

/// A JSON body that was read and passed its field checks.
#[derive(Debug)]
pub struct ValidatedJson<T>(pub T);

impl<T: Validate> ValidatedJson<T> {
    /// Accepts a parsed body that passes its checks. A body that could not
    /// be read (its reason given) is a `BadRequest`; one that fails a check
    /// is a `Validation` error.
    pub fn from_parsed(parsed: Result<T, String>) -> (r: Result<ValidatedJson<T>, AppError>)
        ensures
            parsed matches Err(reason) ==> r == Err::<ValidatedJson<T>, AppError>(
                AppError::BadRequest(reason),
            ),
            parsed is Ok && parsed->Ok_0.spec_failures().len() == 0 ==> r == Ok::<
                ValidatedJson<T>,
                AppError,
            >(ValidatedJson(parsed->Ok_0)),
            parsed is Ok && parsed->Ok_0.spec_failures().len() > 0 ==> (r matches Err(
                AppError::Validation(_),
            )),
            parsed is Ok ==> ({
                let f = parsed->Ok_0.spec_failures();
                f.len() == 1 && f[0].message is Some ==> (r matches Err(AppError::Validation(m)) && m@
                    == failure_line(f[0]))
            }),
            parsed is Ok ==> ({
                let f = parsed->Ok_0.spec_failures();
                f.len() == 1 ==> (r matches Err(AppError::Validation(m)) && failure_line(
                    f[0],
                ).is_prefix_of(m@))
            }),
            parsed is Ok ==> ({
                let f = parsed->Ok_0.spec_failures();
                f.len() > 0 ==> (r matches Err(AppError::Validation(m)) && m@.len() > 0 && forall|
                    k: int,
                | 0 <= k < f.len() ==> occurs_in(m@, #[trigger] failure_line(f[k])))
            }),
    {
        match parsed {
            Err(reason) => Err(AppError::BadRequest(reason)),
            Ok(v) => match validate(&v) {
                Ok(()) => Ok(ValidatedJson(v)),
                Err(e) => Err(e),
            },
        }
    }
}

} // verus!
