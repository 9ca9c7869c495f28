//! The single place where domain failures become protocol-visible: a
//! model of the protocol status, and the exhaustive mapping from the
//! failure taxonomy onto it. A rejection surfaces its own message; an
//! internal failure surfaces only a fixed generic text, never the
//! wrapped cause.

use vstd::prelude::*;

use crate::error::{Failure, RejectKind};

pub mod user;

verus! {

/// The protocol status codes a failed operation can answer with.
#[derive(Debug, Clone, Copy, PartialEq, Eq, Hash, Structural)]
pub enum Code {
    Unauthenticated,
    InvalidArgument,
    NotFound,
    Internal,
}

/// A protocol status: a code and a caller-visible message, plus the
/// diagnostic cause of an internal failure, which is for server-side
/// logs only and is never part of what reaches the caller.
#[derive(Debug)]
pub struct Status {
    code: Code,
    message: String,
    cause: Option<String>,
}

impl Status {
    pub closed spec fn spec_code(&self) -> Code {
        self.code
    }

    pub closed spec fn spec_message(&self) -> Seq<char> {
        self.message@
    }

    pub closed spec fn spec_cause(&self) -> Option<Seq<char>> {
        match self.cause {
            Some(c) => Some(c@),
            None => None,
        }
    }

    pub fn new(code: Code, message: String) -> (st: Self)
        ensures
            st.spec_code() == code,
            st.spec_message() == message@,
            st.spec_cause() is None,
    {
        Status { code, message, cause: None }
    }

    pub fn code(&self) -> (c: Code)
        ensures
            c == self.spec_code(),
    {
        self.code
    }

    pub fn message(&self) -> (m: &str)
        ensures
            m@ == self.spec_message(),
    {
        self.message.as_str()
    }

    /// The diagnostic cause, for the transport layer to record at
    /// error severity; absent for rejections.
    pub fn cause(&self) -> (c: Option<&str>)
        ensures
            c matches Some(s) ==> self.spec_cause() == Some(s@),
            c is None ==> self.spec_cause() is None,
    {
        match &self.cause {
            Some(s) => Some(s.as_str()),
            None => None,
        }
    }
}

/// The protocol code each rejection classification maps to.
pub open spec fn spec_code_of_kind(kind: RejectKind) -> Code {
    match kind {
        RejectKind::Unauthenticated => Code::Unauthenticated,
        RejectKind::BadRequest => Code::InvalidArgument,
        RejectKind::NotFound => Code::NotFound,
    }
}

pub fn encode_reject_kind(kind: RejectKind) -> (c: Code)
    ensures
        c == spec_code_of_kind(kind),
{
    match kind {
        RejectKind::Unauthenticated => Code::Unauthenticated,
        RejectKind::BadRequest => Code::InvalidArgument,
        RejectKind::NotFound => Code::NotFound,
    }
}

/// Translates a domain failure into the protocol status surfaced to
/// the caller. A rejection keeps its classification and message; an
/// internal failure becomes `Internal` with a fixed generic message,
/// so the underlying cause text never leaks — the cause rides along
/// out of band, for the transport layer's logs only.
pub fn error_into_status(err: Failure) -> (st: Status)
    ensures
        err matches Failure::Reject(rej) ==> st.spec_code() == spec_code_of_kind(rej.spec_kind())
            && st.spec_message() == rej.spec_message() && st.spec_cause() is None,
        err matches Failure::Error(e) ==> st.spec_code() == Code::Internal && st.spec_message()
            == "internal error"@ && st.spec_cause() == Some(e.spec_cause()),
{
    match err {
        Failure::Reject(rej) => {
            let code = encode_reject_kind(rej.kind());
            Status::new(code, rej.into_message())
        },
        Failure::Error(e) => Status {
            code: Code::Internal,
            message: String::from_str("internal error"),
            cause: Some(e.into_cause()),
        },
    }
}

} // verus!
