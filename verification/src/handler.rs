//! The create-user handler: what it answers once the insert has run.

use crate::persistence::{PersistenceError, PersistenceErrorKind};
use crate::records::{NewUserView, User, UserView};
use crate::rejection::{describes, Rejection};
use crate::status::Status;
use vstd::prelude::*;

verus! {

/// The outcome of the insert, as contracts see it: the row that the database
/// returned, or the kind and the description of the failure.
pub type InsertOutcome = Result<UserView, (PersistenceErrorKind, Seq<char>)>;

/// The handler's answer, as contracts see it: the record, or the status and
/// the body of the error reply.
pub type Reply = Result<UserView, (Status, Seq<char>)>;

/// The answer to a create-user request whose insert ended in `outcome`: the
/// row as the database returned it, or the error reply that the kind of the
/// failure calls for, with the failure's description as its body.
pub open spec fn replied(outcome: InsertOutcome) -> Reply {
    match outcome {
        Ok(row) => Ok(row),
        Err((kind, message)) => Err((kind.status(), message)),
    }
}

/// The status line that goes out with an answer: success with a record, the
/// rejection's own status otherwise.
pub open spec fn status_of(reply: Reply) -> Status {
    match reply {
        Ok(_) => Status::Success,
        Err((status, _)) => status,
    }
}

/// How contracts see the outcome of an insert.
pub open spec fn outcome_view(outcome: Result<User, PersistenceError>) -> InsertOutcome {
    match outcome {
        Ok(row) => Ok(row@),
        Err(failure) => Err((failure.kind, failure.message@)),
    }
}

/// How contracts see the handler's answer.
pub open spec fn reply_view(reply: Result<User, Rejection>) -> Reply {
    match reply {
        Ok(user) => Ok(user@),
        Err(rejection) => Err(rejection@),
    }
}

/// Answers a create-user request from the outcome of its insert, a failure
/// given by its kind and description.
pub fn create_user_with(outcome: Result<User, PersistenceError>) -> (reply: Result<User, Rejection>)
    ensures
        reply_view(reply) == replied(outcome_view(outcome)),
{
    match outcome {
        Ok(row) => Ok(row),
        Err(failure) => Err(failure.rejection()),
    }
}

/// Answers a create-user request from the outcome of its insert: the full
/// row on success; on failure an error reply, a conflict or an internal
/// server error, whose body is the description of the failure. A failed
/// insert is answered like any other request: nothing here panics.
pub fn create_user(outcome: Result<User, diesel::result::Error>) -> (reply: Result<User, Rejection>)
    ensures
        match outcome {
            Ok(row) => reply_view(reply) == replied(Ok(row@)),
            Err(err) => reply matches Err(rejection) && (rejection.0 == Status::Conflict
                || rejection.0 == Status::InternalServerError) && describes(&err, rejection.1@),
        },
{
    match outcome {
        Ok(row) => create_user_with(Ok(row)),
        Err(err) => create_user_with(Err(PersistenceError::from_query_error(err))),
    }
}

/// The status line that goes out with `reply`.
pub fn reply_status(reply: &Result<User, Rejection>) -> (status: Status)
    ensures
        status == status_of(reply_view(*reply)),
{
    match reply {
        Ok(_) => Status::Success,
        Err(rejection) => rejection.0,
    }
}

/// Where the insert succeeds with the row that stores the request, the
/// answer is a success and carries that row: the submitted name and hair
/// colour, under the id that the database assigned.
pub proof fn lemma_created_user_carries_request(request: NewUserView, row: UserView)
    requires
        row.stores(request),
    ensures
        replied(Ok(row)) == Ok::<UserView, (Status, Seq<char>)>(request.stored_as(row.id)),
        replied(Ok(row)) matches Ok(user) && user.name == request.name && user.hair_color
            == request.hair_color && user.id == row.id,
        status_of(replied(Ok(row))).code() == 200,
{
}

/// A request without a hair colour is answered with a record without one.
pub proof fn lemma_absent_hair_color_stays_absent(request: NewUserView, row: UserView)
    requires
        row.stores(request),
        request.hair_color is None,
    ensures
        replied(Ok(row)) matches Ok(user) && user.hair_color is None,
{
}

} // verus!
