use bb8::RunError;
use diesel::result::ConnectionError;
use diesel_async::pooled_connection::PoolError;
use user_service::connection::DatabaseConnection;
use user_service::status::Status;

#[test]
fn extract_hands_over_the_leased_connection() {
    let lease: Result<u32, RunError<PoolError>> = Ok(7);
    assert_eq!(DatabaseConnection::extract(lease), Ok(DatabaseConnection(7)));
}

#[test]
fn extract_keeps_distinct_leases_distinct() {
    let first: Result<u32, RunError<PoolError>> = Ok(1);
    let second: Result<u32, RunError<PoolError>> = Ok(2);
    let first = DatabaseConnection::extract(first).unwrap();
    let second = DatabaseConnection::extract(second).unwrap();
    assert_ne!(first, second);
    assert_eq!((first.0, second.0), (1, 2));
}

#[test]
fn extract_rejects_when_the_pool_times_out() {
    let lease: Result<u32, RunError<PoolError>> = Err(RunError::TimedOut);
    let rejection = DatabaseConnection::extract(lease).unwrap_err();
    assert_eq!(rejection.0.as_u16(), 500);
    assert_eq!(rejection.1, "Timed out in bb8");
    assert!(!rejection.1.is_empty());
}

#[test]
fn extract_rejects_when_the_database_is_unreachable() {
    let down = ConnectionError::BadConnection(String::from("could not connect to server"));
    let lease: Result<u32, RunError<PoolError>> =
        Err(RunError::User(PoolError::ConnectionError(down)));
    assert_eq!(
        DatabaseConnection::extract(lease),
        Err((Status::InternalServerError, String::from("could not connect to server")))
    );
}

#[test]
fn extract_serves_the_next_request_after_a_failure() {
    let failed: Result<u32, RunError<PoolError>> = Err(RunError::TimedOut);
    assert!(DatabaseConnection::extract(failed).is_err());
    let next: Result<u32, RunError<PoolError>> = Ok(3);
    assert_eq!(DatabaseConnection::extract(next), Ok(DatabaseConnection(3)));
}

#[test]
fn extract_with_hands_over_the_leased_connection() {
    let lease: Result<&str, String> = Ok("session");
    assert_eq!(DatabaseConnection::extract_with(lease), Ok(DatabaseConnection("session")));
}

#[test]
fn extract_with_rejects_with_the_message() {
    let lease: Result<u32, String> = Err(String::from("pool exhausted"));
    assert_eq!(
        DatabaseConnection::extract_with(lease),
        Err((Status::InternalServerError, String::from("pool exhausted")))
    );
}
