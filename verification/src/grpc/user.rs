//! Wire messages of the user service: the user message, one request
//! and one response message per operation, and the wire timestamp
//! (seconds plus nanoseconds since the Unix epoch, UTC).

use vstd::prelude::*;

verus! {

/// The wire timestamp representation.
#[derive(Debug, Clone, Copy, PartialEq, Eq, Hash, Structural)]
pub struct Timestamp {
    pub seconds: i64,
    pub nanos: i32,
}

/// The user entity as encoded on the wire.
#[derive(Debug)]
pub struct User {
    pub id: Option<crate::grpc::id::UserId>,
    pub name: String,
    pub created_at: Option<Timestamp>,
    pub updated_at: Option<Timestamp>,
}

#[derive(Debug)]
pub struct GetUserRequest {
    pub id: Option<crate::grpc::id::UserId>,
}

#[derive(Debug)]
pub struct GetUserResponse {
    pub user: Option<User>,
}

#[derive(Debug)]
pub struct CreateUserRequest {
    pub name: String,
}

#[derive(Debug)]
pub struct CreateUserResponse {
    pub user: Option<User>,
}

#[derive(Debug)]
pub struct UpdateUserRequest {
    pub id: Option<crate::grpc::id::UserId>,
    pub name: String,
}

#[derive(Debug)]
pub struct UpdateUserResponse {
    pub user: Option<User>,
}

#[derive(Debug)]
pub struct DeleteUserRequest {
    pub id: Option<crate::grpc::id::UserId>,
}

#[derive(Debug)]
pub struct DeleteUserResponse {
    pub user: Option<User>,
}

} // verus!
