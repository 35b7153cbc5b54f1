//! Uniform success envelope `{ code, message, data }`.

use vstd::prelude::*;

verus! {

/// Uniform success response: `code` 0 means success.
pub struct ApiResponse<T> {
    /// Business code, 0 means success.
    pub code: u16,
    pub message: String,
    pub data: T,
}

impl<T> ApiResponse<T> {
    /// Wraps `data` with code 0 and the message `"ok"`.
    pub fn ok(data: T) -> (res: Self)
        ensures
            res.code == 0,
            res.message@ == "ok"@,
            res.data == data,
    {
        ApiResponse { code: 0, message: String::from_str("ok"), data }
    }

    /// Wraps `data` with code 0 and the given message.
    pub fn with_message(message: String, data: T) -> (res: Self)
        ensures
            res.code == 0,
            res.message@ == message@,
            res.data == data,
    {
        ApiResponse { code: 0, message, data }
    }
}

} // verus!
