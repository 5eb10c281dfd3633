//! Verified decisions of a create-user HTTP endpoint.

pub mod connection;
pub mod handler;
pub mod persistence;
pub mod records;
pub mod rejection;
pub mod status;
