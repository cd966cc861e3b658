//! The error payload the API surface answers with: a status code and a
//! message, serialized by the surrounding HTTP layer.

use vstd::prelude::*;

verus! {

/// A JSON-ready error body: HTTP status code and human-readable message.
pub struct ErrorResponse {
    code: u16,
    message: String,
}

/// The mathematical value of an `ErrorResponse`.
pub ghost struct ErrorResponseView {
    pub code: u16,
    pub message: Seq<char>,
}

impl View for ErrorResponse {
    type V = ErrorResponseView;

    closed spec fn view(&self) -> ErrorResponseView {
        ErrorResponseView { code: self.code, message: self.message@ }
    }
}

impl Clone for ErrorResponse {
    fn clone(&self) -> (r: Self)
        ensures
            r@ == self@,
    {
        ErrorResponse { code: self.code, message: self.message.clone() }
    }
}

impl ErrorResponse {
    /// Build a response from a status code and a message.
    pub fn new(code: u16, message: String) -> (r: Self)
        ensures
            r@.code == code,
            r@.message == message@,
    {
        ErrorResponse { code, message }
    }

    /// The HTTP status code of this response.
    pub fn get_code(&self) -> (r: u16)
        ensures
            r == self@.code,
    {
        self.code
    }

    /// The message of this response.
    pub fn get_message(&self) -> (r: &String)
        ensures
            r@ == self@.message,
    {
        &self.message
    }
}

/// Build an [`ErrorResponse`] on the fly: the short form of
/// [`ErrorResponse::new`].
pub fn err_resp(code: u16, message: String) -> (r: ErrorResponse)
    ensures
        r@.code == code,
        r@.message == message@,
{
    ErrorResponse::new(code, message)
}

} // verus!
