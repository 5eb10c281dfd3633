use bb8::RunError;
use diesel::result::ConnectionError;
use diesel_async::pooled_connection::PoolError;
use user_service::rejection::{internal_error, internal_error_with};
use user_service::status::Status;

#[test]
fn status_numbers_are_the_wire_numbers() {
    assert_eq!(Status::Success.as_u16(), 200);
    assert_eq!(Status::Conflict.as_u16(), 409);
    assert_eq!(Status::InternalServerError.as_u16(), 500);
}

#[test]
fn internal_error_with_keeps_the_message() {
    let rejection = internal_error_with(String::from("pool is closed"));
    assert_eq!(rejection, (Status::InternalServerError, String::from("pool is closed")));
    assert_eq!(rejection.0.as_u16(), 500);
}

#[test]
fn internal_error_with_keeps_an_empty_message() {
    let rejection = internal_error_with(String::new());
    assert_eq!(rejection, (Status::InternalServerError, String::new()));
}

#[test]
fn internal_error_describes_a_pool_timeout() {
    let err: RunError<PoolError> = RunError::TimedOut;
    let rejection = internal_error(err);
    assert_eq!(rejection.0, Status::InternalServerError);
    assert_eq!(rejection.1, "Timed out in bb8");
}

#[test]
fn internal_error_describes_a_refused_connection() {
    let refused = ConnectionError::BadConnection(String::from("connection refused"));
    let err = RunError::User(PoolError::ConnectionError(refused));
    let rejection = internal_error(err);
    assert_eq!(rejection, (Status::InternalServerError, String::from("connection refused")));
}

#[test]
fn internal_error_describes_a_query_error() {
    let rejection = internal_error(diesel::result::Error::NotFound);
    assert_eq!(rejection, (Status::InternalServerError, String::from("Record not found")));
}

#[test]
fn internal_error_of_an_error_without_text_has_an_empty_body() {
    let silent = ConnectionError::BadConnection(String::new());
    let err = RunError::User(PoolError::ConnectionError(silent));
    let rejection = internal_error(err);
    assert_eq!(rejection.0.as_u16(), 500);
    assert!(rejection.1.is_empty());
}
