//! The uniform error shape: a numeric status and a human-readable message.

use vstd::prelude::*;

verus! {

pub const UNAUTHORIZED: u16 = 401;

pub const NOT_FOUND: u16 = 404;

pub const CONFLICT: u16 = 409;

/// The message part of an error response.
#[derive(Debug, Clone)]
pub struct WebErrorMessages {
    pub error_message: String,
}

impl WebErrorMessages {
    pub fn from_string(message: String) -> (r: WebErrorMessages)
        ensures
            r.error_message@ == message@,
    {
        WebErrorMessages { error_message: message }
    }
}

/// The numeric status part of an error response.
#[derive(Debug, Clone, Copy, PartialEq, Eq, Structural)]
pub struct WebErrorStatus(pub u16);

/// Every failure of the library, as a status and a message.
#[derive(Debug, Clone)]
pub struct WebError {
    pub code: WebErrorStatus,
    pub message: WebErrorMessages,
}

impl View for WebError {
    type V = (u16, Seq<char>);

    open spec fn view(&self) -> (u16, Seq<char>) {
        (self.code.0, self.message.error_message@)
    }
}

impl WebError {
    pub fn new(code: u16, message: String) -> (r: WebError)
        ensures
            r@ == (code, message@),
    {
        WebError { code: WebErrorStatus(code), message: WebErrorMessages::from_string(message) }
    }

    pub fn status_code(&self) -> (r: u16)
        ensures
            r == self@.0,
    {
        self.code.0
    }
}

} // verus!
