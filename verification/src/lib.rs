//! A user-resource CRUD service library: domain model, error taxonomy,
//! storage-backed service contract, provider binding, and the transport
//! adapter that validates wire requests and maps failures to protocol
//! status codes.

pub mod error;
pub mod ext;
pub mod grpc;
pub mod prelude;
pub mod router;
pub mod user;
