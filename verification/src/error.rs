//! Two-kind failure taxonomy: expected, caller-attributable rejections
//! with a fixed classification, and unexpected internal failures that
//! wrap an underlying cause.

use vstd::prelude::*;

verus! {

/// Classification of an expected, caller-attributable failure.
#[must_use]
#[derive(Debug, Clone, Copy, PartialEq, Eq, Hash, Structural)]
pub enum RejectKind {
    Unauthenticated,
    BadRequest,
    NotFound,
}

/// The display label of a rejection classification.
pub open spec fn kind_label(kind: RejectKind) -> Seq<char> {
    match kind {
        RejectKind::Unauthenticated => "Unauthenticated"@,
        RejectKind::BadRequest => "Bad request"@,
        RejectKind::NotFound => "Not found"@,
    }
}

impl RejectKind {
    /// The human-readable label of this classification.
    pub fn as_str(&self) -> (s: &'static str)
        ensures
            s@ == kind_label(*self),
    {
        match self {
            RejectKind::Unauthenticated => "Unauthenticated",
            RejectKind::BadRequest => "Bad request",
            RejectKind::NotFound => "Not found",
        }
    }
}

/// An expected failure: the caller must fix its request and retry.
#[derive(Debug)]
pub struct Reject {
    kind: RejectKind,
    message: String,
}

impl Reject {
    pub closed spec fn spec_kind(&self) -> RejectKind {
        self.kind
    }

    pub closed spec fn spec_message(&self) -> Seq<char> {
        self.message@
    }

    pub fn new(kind: RejectKind, message: String) -> (r: Self)
        ensures
            r.spec_kind() == kind,
            r.spec_message() == message@,
    {
        Self { kind, message }
    }

    pub fn unauthenticated(message: String) -> (r: Self)
        ensures
            r.spec_kind() == RejectKind::Unauthenticated,
            r.spec_message() == message@,
    {
        Self::new(RejectKind::Unauthenticated, message)
    }

    pub fn bad_request(message: String) -> (r: Self)
        ensures
            r.spec_kind() == RejectKind::BadRequest,
            r.spec_message() == message@,
    {
        Self::new(RejectKind::BadRequest, message)
    }

    pub fn not_found(message: String) -> (r: Self)
        ensures
            r.spec_kind() == RejectKind::NotFound,
            r.spec_message() == message@,
    {
        Self::new(RejectKind::NotFound, message)
    }

    pub fn kind(&self) -> (k: RejectKind)
        ensures
            k == self.spec_kind(),
    {
        self.kind
    }

    pub fn as_message(&self) -> (m: &str)
        ensures
            m@ == self.spec_message(),
    {
        self.message.as_str()
    }

    pub fn into_message(self) -> (m: String)
        ensures
            m@ == self.spec_message(),
    {
        self.message
    }

    /// The "<label>: <message>" rendering of this rejection.
    pub fn display_string(&self) -> (s: String)
        ensures
            s@ == kind_label(self.spec_kind()) + ": "@ + self.spec_message(),
    {
        let mut s = String::new();
        s.append(self.kind.as_str());
        s.append(": ");
        s.append(self.message.as_str());
        s
    }
}

/// An unexpected failure, wrapping the text of its underlying cause.
/// The cause is for server-side diagnostics only; it is never surfaced
/// to a caller.
#[derive(Debug)]
pub struct InternalError {
    cause: String,
}

impl InternalError {
    pub closed spec fn spec_cause(&self) -> Seq<char> {
        self.cause@
    }

    pub fn new(cause: String) -> (r: Self)
        ensures
            r.spec_cause() == cause@,
    {
        Self { cause }
    }

    pub fn as_cause(&self) -> (c: &str)
        ensures
            c@ == self.spec_cause(),
    {
        self.cause.as_str()
    }

    pub fn into_cause(self) -> (c: String)
        ensures
            c@ == self.spec_cause(),
    {
        self.cause
    }
}

/// The failure union every business operation returns: an expected
/// rejection or an unexpected internal error.
#[must_use]
#[derive(Debug)]
pub enum Failure {
    Reject(Reject),
    Error(InternalError),
}

impl From<Reject> for Failure {
    fn from(value: Reject) -> (r: Self) {
        Failure::Reject(value)
    }
}

impl vstd::std_specs::convert::FromSpecImpl<Reject> for Failure {
    open spec fn obeys_from_spec() -> bool {
        true
    }

    open spec fn from_spec(value: Reject) -> Self {
        Failure::Reject(value)
    }
}

impl Failure {
    pub fn reject(kind: RejectKind, message: String) -> (r: Self)
        ensures
            r matches Failure::Reject(rej) && rej.spec_kind() == kind && rej.spec_message()
                == message@,
    {
        Failure::Reject(Reject::new(kind, message))
    }

    pub fn reject_unauthenticated(message: String) -> (r: Self)
        ensures
            r matches Failure::Reject(rej) && rej.spec_kind() == RejectKind::Unauthenticated
                && rej.spec_message() == message@,
    {
        Self::reject(RejectKind::Unauthenticated, message)
    }

    pub fn reject_bad_request(message: String) -> (r: Self)
        ensures
            r matches Failure::Reject(rej) && rej.spec_kind() == RejectKind::BadRequest
                && rej.spec_message() == message@,
    {
        Self::reject(RejectKind::BadRequest, message)
    }

    pub fn reject_not_found(message: String) -> (r: Self)
        ensures
            r matches Failure::Reject(rej) && rej.spec_kind() == RejectKind::NotFound
                && rej.spec_message() == message@,
    {
        Self::reject(RejectKind::NotFound, message)
    }

    pub fn internal(cause: String) -> (r: Self)
        ensures
            r matches Failure::Error(e) && e.spec_cause() == cause@,
    {
        Failure::Error(InternalError::new(cause))
    }
}

} // verus!
