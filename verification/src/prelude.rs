//! The timestamp model shared by the domain entities and the wire
//! encoding: seconds since the Unix epoch plus a subsecond nanosecond
//! count, in UTC.

use vstd::prelude::*;

pub use crate::error::Failure;
pub use crate::router::{Code, Status};

verus! {

pub const NANOS_PER_SEC: u32 = 1_000_000_000;

/// An instant in UTC: whole seconds since the Unix epoch and the
/// nanoseconds into that second.
#[derive(Debug, Clone, Copy, PartialEq, Eq, Hash, Structural)]
pub struct Timestamp {
    pub secs: i64,
    pub nanos: u32,
}

impl Timestamp {
    /// A well-formed timestamp keeps its nanosecond part below one second.
    pub open spec fn wf(self) -> bool {
        self.nanos < NANOS_PER_SEC
    }

    /// Strict chronological order.
    pub open spec fn spec_lt(self, other: Timestamp) -> bool {
        self.secs < other.secs || (self.secs == other.secs && self.nanos < other.nanos)
    }

    /// Builds a well-formed timestamp, clamping an overlong nanosecond
    /// part (a leap second reading) into the last representable
    /// nanosecond of its second.
    pub fn from_parts(secs: i64, nanos: u32) -> (t: Timestamp)
        ensures
            t.wf(),
            t.secs == secs,
            nanos < NANOS_PER_SEC ==> t.nanos == nanos,
            nanos >= NANOS_PER_SEC ==> t.nanos == NANOS_PER_SEC - 1,
    {
        if nanos < NANOS_PER_SEC {
            Timestamp { secs, nanos }
        } else {
            Timestamp { secs, nanos: NANOS_PER_SEC - 1 }
        }
    }

    /// Whether this instant lies strictly before `other`.
    pub fn before(&self, other: &Timestamp) -> (r: bool)
        ensures
            r == self.spec_lt(*other),
    {
        self.secs < other.secs || (self.secs == other.secs && self.nanos < other.nanos)
    }

    /// The current time, well-formed.
    pub fn now() -> (t: Timestamp)
        ensures
            t.wf(),
    {
        let (secs, nanos) = crate::ext::now_parts();
        Timestamp::from_parts(secs, nanos)
    }
}

/// Encodes a domain timestamp into its wire representation.
pub fn convert_timestamp(t: Timestamp) -> (r: Result<crate::grpc::user::Timestamp, Failure>)
    requires
        t.wf(),
    ensures
        r matches Ok(w) && w.seconds == t.secs && w.nanos == t.nanos,
{
    let w = crate::grpc::user::Timestamp { seconds: t.secs, nanos: t.nanos as i32 };
    Ok(w)
}

} // verus!
