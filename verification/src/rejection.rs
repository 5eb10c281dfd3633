//! The uniform error reply: a status and a plain-text body.

use crate::status::Status;
use std::fmt::Display;
use vstd::prelude::*;

verus! {

/// An error reply: the status, and the body as plain text.
pub type Rejection = (Status, String);

/// Whether `text` is a description of `err`: the text of a string that
/// `to_string` may give for it.
pub open spec fn describes<E: Display>(err: &E, text: Seq<char>) -> bool {
    exists|written: String|
        #[trigger] vstd::string::to_string_from_display_ensures::<E>(err, written) && written@
            == text
}

/// The reply for a failure inside the service, described by `message`:
/// an internal server error with `message` as its body.
pub fn internal_error_with(message: String) -> (rejection: Rejection)
    ensures
        rejection.0 == Status::InternalServerError,
        rejection.1@ == message@,
{
    (Status::InternalServerError, message)
}

/// The reply for a failure inside the service: an internal server error
/// whose body is the description of `err`.
pub fn internal_error<E: Display>(err: E) -> (rejection: Rejection)
    ensures
        rejection.0 == Status::InternalServerError,
        describes(&err, rejection.1@),
{
    internal_error_with(err.to_string())
}

} // verus!
