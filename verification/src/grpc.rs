//! The wire message shapes of the RPC contract, one module per
//! message package. These mirror the schema-defined messages field for
//! field; every field of a message is optional or plain, as the wire
//! format prescribes.

pub mod id;
pub mod user;
