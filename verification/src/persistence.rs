//! Failures of the insert, and the reply that each of them gets.

use crate::rejection::{describes, Rejection};
use crate::status::Status;
use diesel::result::DatabaseErrorKind;
use vstd::prelude::*;

verus! {

/// What kind of failure stopped a statement.
#[derive(Clone, Copy, Debug, PartialEq, Eq, Structural)]
pub enum PersistenceErrorKind {
    /// A unique constraint was violated.
    UniqueViolation,
    /// A foreign key constraint was violated.
    ForeignKeyViolation,
    /// The statement could not be sent to the database.
    UnableToSendCommand,
    /// A serializable transaction could not commit.
    SerializationFailure,
    /// The transaction was read only.
    ReadOnlyTransaction,
    /// A not-null constraint was violated.
    NotNullViolation,
    /// A check constraint was violated.
    CheckViolation,
    /// The connection to the database was closed.
    ClosedConnection,
    /// The database reported an error of some other kind.
    Unknown,
    /// The failure is not an error that the database reported.
    NotDatabaseError,
}

impl PersistenceErrorKind {
    /// Whether the stored data refused the statement: one of the table's
    /// constraints was violated.
    pub open spec fn is_constraint_violation(self) -> bool {
        self == PersistenceErrorKind::UniqueViolation
            || self == PersistenceErrorKind::ForeignKeyViolation
            || self == PersistenceErrorKind::NotNullViolation
            || self == PersistenceErrorKind::CheckViolation
    }

    /// The status of the reply to a failure of this kind: a conflict for a
    /// constraint violation, an internal server error for anything else.
    pub open spec fn status(self) -> Status {
        if self.is_constraint_violation() {
            Status::Conflict
        } else {
            Status::InternalServerError
        }
    }

    /// Tells whether a constraint of the table was violated.
    pub fn violates_constraint(&self) -> (violated: bool)
        ensures
            violated == self.is_constraint_violation(),
    {
        match self {
            PersistenceErrorKind::UniqueViolation => true,
            PersistenceErrorKind::ForeignKeyViolation => true,
            PersistenceErrorKind::NotNullViolation => true,
            PersistenceErrorKind::CheckViolation => true,
            _ => false,
        }
    }

    /// Picks the status of the reply to a failure of this kind.
    pub fn reply_status(&self) -> (status: Status)
        ensures
            status == self.status(),
    {
        if self.violates_constraint() {
            Status::Conflict
        } else {
            Status::InternalServerError
        }
    }
}

/// A failed insert: its kind, and its description as plain text.
#[derive(Clone, Debug, PartialEq, Eq)]
pub struct PersistenceError {
    pub kind: PersistenceErrorKind,
    pub message: String,
}

/// `diesel::result::Error`, the failure of a query.
#[verifier::external_type_specification]
#[verifier::external_body]
pub struct ExQueryError(diesel::result::Error);

/// Reads which variant a `diesel::result::Error` is and, for its
/// `DatabaseError` variant, which `diesel::result::DatabaseErrorKind` it
/// carries, and names it in this crate's own terms. Nothing is claimed of
/// the answer.
#[verifier::external_body]
fn kind_of(err: &diesel::result::Error) -> PersistenceErrorKind {
    match err {
        diesel::result::Error::DatabaseError(kind, _) => match kind {
            DatabaseErrorKind::UniqueViolation => PersistenceErrorKind::UniqueViolation,
            DatabaseErrorKind::ForeignKeyViolation => PersistenceErrorKind::ForeignKeyViolation,
            DatabaseErrorKind::UnableToSendCommand => PersistenceErrorKind::UnableToSendCommand,
            DatabaseErrorKind::SerializationFailure => PersistenceErrorKind::SerializationFailure,
            DatabaseErrorKind::ReadOnlyTransaction => PersistenceErrorKind::ReadOnlyTransaction,
            DatabaseErrorKind::NotNullViolation => PersistenceErrorKind::NotNullViolation,
            DatabaseErrorKind::CheckViolation => PersistenceErrorKind::CheckViolation,
            DatabaseErrorKind::ClosedConnection => PersistenceErrorKind::ClosedConnection,
            _ => PersistenceErrorKind::Unknown,
        },
        _ => PersistenceErrorKind::NotDatabaseError,
    }
}

impl PersistenceError {
    /// Takes from a query's failure what the reply depends on: its kind and
    /// its description.
    pub fn from_query_error(err: diesel::result::Error) -> (failure: PersistenceError)
        ensures
            describes(&err, failure.message@),
    {
        let kind = kind_of(&err);
        PersistenceError { kind, message: err.to_string() }
    }

    /// The reply to this failure: the status that its kind calls for, with
    /// the description as the body.
    pub fn rejection(self) -> (rejection: Rejection)
        ensures
            rejection.0 == self.kind.status(),
            rejection.1@ == self.message@,
    {
        (self.kind.reply_status(), self.message)
    }
}

} // verus!
