//! HTTP status codes that the endpoint can answer with.

use vstd::prelude::*;

verus! {

/// The status line of a reply.
#[derive(Clone, Copy, Debug, PartialEq, Eq, Structural)]
pub enum Status {
    /// 200: the request succeeded.
    Success,
    /// 409: the request conflicts with what is stored.
    Conflict,
    /// 500: the service could not carry the request out.
    InternalServerError,
}

impl View for Status {
    type V = Status;

    open spec fn view(&self) -> Status {
        *self
    }
}

impl Status {
    /// The three-digit number of the status.
    pub open spec fn code(self) -> int {
        match self {
            Status::Success => 200,
            Status::Conflict => 409,
            Status::InternalServerError => 500,
        }
    }

    /// The number of the status, as it goes on the wire.
    pub fn as_u16(&self) -> (n: u16)
        ensures
            n == self.code(),
    {
        match self {
            Status::Success => 200,
            Status::Conflict => 409,
            Status::InternalServerError => 500,
        }
    }
}

} // verus!
