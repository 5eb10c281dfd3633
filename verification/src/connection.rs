//! The connection that a request leases from the pool before its handler
//! runs.

use crate::rejection::{describes, internal_error, internal_error_with, Rejection};
use crate::status::Status;
use std::fmt::Display;
use vstd::prelude::*;

verus! {

/// A connection leased from the pool, owned by the one request that asked
/// for it.
#[derive(Debug, PartialEq, Eq)]
pub struct DatabaseConnection<C>(pub C);

impl<C> DatabaseConnection<C> {
    /// What a request gets for the outcome of asking the pool, the pool's
    /// failure given by its description: the leased connection, or an
    /// internal server error with the description as its body.
    pub open spec fn extracted(lease: Result<C, Seq<char>>) -> Result<Self, (Status, Seq<char>)> {
        match lease {
            Ok(connection) => Ok(DatabaseConnection(connection)),
            Err(message) => Err((Status::InternalServerError, message)),
        }
    }

    /// Hands the request its connection, or rejects the request where the
    /// pool supplied none, `message` describing why.
    pub fn extract_with(lease: Result<C, String>) -> (extraction: Result<Self, Rejection>)
        ensures
            match lease {
                Ok(connection) => extraction == Ok::<Self, Rejection>(DatabaseConnection(connection)),
                Err(message) => extraction matches Err(rejection) && Self::extracted(Err(message@))
                    == Err::<Self, (Status, Seq<char>)>(rejection@),
            },
    {
        match lease {
            Ok(connection) => Ok(DatabaseConnection(connection)),
            Err(message) => Err(internal_error_with(message)),
        }
    }

    /// Hands the request its connection, or rejects the request where the
    /// pool supplied none: an internal server error whose body is the
    /// description of the pool's failure. Nothing is tried a second time.
    pub fn extract<E: Display>(lease: Result<C, E>) -> (extraction: Result<Self, Rejection>)
        ensures
            match lease {
                Ok(connection) => extraction == Ok::<Self, Rejection>(DatabaseConnection(connection)),
                Err(err) => extraction matches Err(rejection) && rejection.0
                    == Status::InternalServerError && describes(&err, rejection.1@),
            },
    {
        match lease {
            Ok(connection) => Ok(DatabaseConnection(connection)),
            Err(err) => Err(internal_error(err)),
        }
    }
}

/// Where the pool supplies no connection, the reply carries status 500 and
/// the description of the pool's failure as its body, which is not empty
/// unless the description is.
pub proof fn lemma_pool_failure_is_internal_error<C>(message: Seq<char>)
    requires
        message.len() > 0,
    ensures
        DatabaseConnection::<C>::extracted(Err(message)) matches Err(rejection) && rejection.0.code()
            == 500 && rejection.1 == message && rejection.1.len() > 0,
{
}

} // verus!
