//! The error a request handler answers with.
use vstd::prelude::*;

verus! {

/// An HTTP status code and the message shown to the user.
pub struct AppError(pub u16, pub String);

impl AppError {
    /// An error with a status and a message of the handler's choosing.
    pub fn new(status: u16, message: String) -> (r: AppError)
        requires
            100 <= status <= 999,
        ensures
            r.0 == status,
            r.1 == message,
    {
        AppError(status, message)
    }

    /// The answer to any internal failure: status 500 and a fixed message
    /// that tells nothing of the cause.
    pub fn internal() -> (r: AppError)
        ensures
            r.0 == 500,
            r.1@ == "Internal server error"@,
    {
        AppError(500, String::from_str("Internal server error"))
    }
}

} // verus!
