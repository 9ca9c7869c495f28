//! The transport adapter for the user service: decodes and validates
//! wire requests into intent types, invokes the bound provider, and
//! encodes results back into wire responses — or a protocol status on
//! failure. No business logic lives here beyond request shape
//! validation.

use vstd::prelude::*;

use crate::error::{Failure, Reject, RejectKind};
use crate::ext::{uuid_of, uuid_parse_err_of, uuid_str_of};
use crate::grpc::user::{
    CreateUserRequest, CreateUserResponse, DeleteUserRequest, DeleteUserResponse, GetUserRequest,
    GetUserResponse, UpdateUserRequest, UpdateUserResponse,
};
use crate::prelude::convert_timestamp;
use crate::router::{error_into_status, Code, Status};
use crate::user::{
    CreateUserParams, DeleteUserParams, GetUserParams, ProvideUserService, UpdateUserParams, User,
    UserId, UserName,
};

verus! {

/// The wire form of a domain timestamp.
pub open spec fn wire_ts(t: crate::prelude::Timestamp) -> crate::grpc::user::Timestamp {
    crate::grpc::user::Timestamp { seconds: t.secs, nanos: t.nanos as i32 }
}

/// Whether a wire user message is the encoding of a domain entity: the
/// identifier in canonical string form, the name verbatim, and both
/// timestamps in wire representation.
pub open spec fn wire_user_matches(w: crate::grpc::user::User, u: User) -> bool {
    &&& w.id matches Some(wid) && wid.id@ == uuid_str_of(u.id.0)
    &&& w.name@ == u.name.0@
    &&& w.created_at == Some(wire_ts(u.created_at))
    &&& w.updated_at == Some(wire_ts(u.updated_at))
}

/// Whether a decode outcome is a bad-request rejection carrying the
/// given message.
pub open spec fn rejected_bad_request<T>(r: Result<T, Reject>, msg: Seq<char>) -> bool {
    r matches Err(rej) && rej.spec_kind() == RejectKind::BadRequest && rej.spec_message() == msg
}

/// Whether an operation outcome is an invalid-argument status carrying
/// the given message.
pub open spec fn status_invalid_argument<T>(r: Result<T, Status>, msg: Seq<char>) -> bool {
    r matches Err(st) && st.spec_code() == Code::InvalidArgument && st.spec_message() == msg
}

/// Encodes a domain identifier into its canonical wire string form.
pub fn encode_user_id(value: UserId) -> (w: crate::grpc::id::UserId)
    ensures
        w.id@ == uuid_str_of(value.0),
        uuid_of(w.id@) == Some(value.0),
{
    let id = crate::ext::user_id_string(value.0);
    crate::grpc::id::UserId { id }
}

/// Encodes a domain entity into its wire message.
pub fn encode_user(value: User) -> (r: Result<crate::grpc::user::User, Failure>)
    requires
        value.created_at.wf(),
        value.updated_at.wf(),
    ensures
        r matches Ok(w) && wire_user_matches(w, value),
{
    let User { id, name: UserName(name), created_at, updated_at } = value;
    let w = crate::grpc::user::User {
        id: Some(encode_user_id(id)),
        name,
        created_at: Some(convert_timestamp(created_at)?),
        updated_at: Some(convert_timestamp(updated_at)?),
    };
    Ok(w)
}

/// Validates the identifier field of a wire request: a missing field
/// is a bad request; a present field must parse as an identifier.
pub fn decode_user_id(id: Option<crate::grpc::id::UserId>) -> (r: Result<UserId, Reject>)
    ensures
        id is None ==> rejected_bad_request(r, "unspecified user id"@),
        id matches Some(w) ==> uuid_of(w.id@) is None ==> rejected_bad_request(
            r,
            uuid_parse_err_of(w.id@),
        ),
        id matches Some(w) ==> uuid_of(w.id@) matches Some(v) ==> r == Ok::<UserId, Reject>(
            UserId(v),
        ),
{
    let wid = match id {
        Some(wid) => wid,
        None => {
            return Err(Reject::bad_request(String::from_str("unspecified user id")));
        },
    };
    match crate::ext::parse_user_id(wid.id.as_str()) {
        Ok(v) => Ok(UserId(v)),
        Err(e) => Err(Reject::bad_request(e)),
    }
}

pub fn decode_get_user(req: GetUserRequest) -> (r: Result<GetUserParams, Reject>)
    ensures
        req.id is None ==> rejected_bad_request(r, "unspecified user id"@),
        req.id matches Some(w) ==> uuid_of(w.id@) is None ==> rejected_bad_request(
            r,
            uuid_parse_err_of(w.id@),
        ),
        req.id matches Some(w) ==> uuid_of(w.id@) matches Some(v) ==> r == Ok::<
            GetUserParams,
            Reject,
        >(GetUserParams { id: UserId(v) }),
{
    let id = decode_user_id(req.id)?;
    Ok(GetUserParams { id })
}

pub fn decode_create_user(req: CreateUserRequest) -> (r: Result<CreateUserParams, Reject>)
    ensures
        r matches Ok(p) && p.name.0 == req.name,
{
    Ok(CreateUserParams { name: UserName(req.name) })
}

pub fn decode_update_user(req: UpdateUserRequest) -> (r: Result<UpdateUserParams, Reject>)
    ensures
        req.id is None ==> rejected_bad_request(r, "unspecified user id"@),
        req.id matches Some(w) ==> uuid_of(w.id@) is None ==> rejected_bad_request(
            r,
            uuid_parse_err_of(w.id@),
        ),
        req.id matches Some(w) ==> uuid_of(w.id@) matches Some(v) ==> r matches Ok(p) && p.id
            == UserId(v) && p.name.0 == req.name,
{
    let id = decode_user_id(req.id)?;
    Ok(UpdateUserParams { id, name: UserName(req.name) })
}

pub fn decode_delete_user(req: DeleteUserRequest) -> (r: Result<DeleteUserParams, Reject>)
    ensures
        req.id is None ==> rejected_bad_request(r, "unspecified user id"@),
        req.id matches Some(w) ==> uuid_of(w.id@) is None ==> rejected_bad_request(
            r,
            uuid_parse_err_of(w.id@),
        ),
        req.id matches Some(w) ==> uuid_of(w.id@) matches Some(v) ==> r == Ok::<
            DeleteUserParams,
            Reject,
        >(DeleteUserParams { id: UserId(v) }),
{
    let id = decode_user_id(req.id)?;
    Ok(DeleteUserParams { id })
}

/// The wire-facing user service: holds the provider and offers the
/// four unary operations over wire messages.
#[derive(Debug)]
pub struct Service<S>(S);

impl<S: ProvideUserService> Service<S> {
    /// The bound provider.
    pub closed spec fn inner(&self) -> S {
        self.0
    }

    pub fn new(inner: S) -> (s: Self)
        ensures
            s.inner() == inner,
    {
        Service(inner)
    }

    pub fn get_user(&mut self, req: GetUserRequest) -> (r: Result<GetUserResponse, Status>)
        ensures
            final(self).inner().rows() == old(self).inner().rows(),
            final(self).inner().issued() == old(self).inner().issued(),
            req.id is None ==> status_invalid_argument(r, "unspecified user id"@),
            req.id matches Some(w) ==> uuid_of(w.id@) is None ==> status_invalid_argument(
                r,
                uuid_parse_err_of(w.id@),
            ),
            req.id matches Some(w) ==> uuid_of(w.id@) matches Some(v) ==> {
                &&& r matches Ok(resp) ==> old(self).inner().rows().contains_key(v) && (
                resp.user matches Some(wu) && wire_user_matches(
                    wu,
                    old(self).inner().rows()[v],
                ))
                &&& r matches Err(st) ==> st.spec_code() == Code::NotFound || st.spec_code()
                    == Code::Internal
                &&& r matches Err(st) ==> st.spec_code() == Code::NotFound ==> !old(
                    self,
                ).inner().rows().contains_key(v)
            },
    {
        let params = match decode_get_user(req) {
            Ok(p) => p,
            Err(rej) => {
                return Err(error_into_status(Failure::Reject(rej)));
            },
        };
        let user = match self.0.get_user(params) {
            Ok(u) => u,
            Err(f) => {
                return Err(error_into_status(f));
            },
        };
        let wire = match encode_user(user) {
            Ok(w) => w,
            Err(f) => {
                return Err(error_into_status(f));
            },
        };
        Ok(GetUserResponse { user: Some(wire) })
    }

    pub fn create_user(&mut self, req: CreateUserRequest) -> (r: Result<
        CreateUserResponse,
        Status,
    >)
        ensures
            r matches Ok(resp) ==> (resp.user matches Some(wu) && exists|u: User|
                {
                    &&& #[trigger] wire_user_matches(wu, u)
                    &&& !old(self).inner().issued().contains(u.id.0)
                    &&& final(self).inner().rows() == old(self).inner().rows().insert(u.id.0, u)
                    &&& final(self).inner().issued() == old(self).inner().issued().insert(u.id.0)
                    &&& u.name.0 == req.name
                    &&& u.created_at == u.updated_at
                }),
            r matches Err(st) ==> st.spec_code() == Code::Internal && st.spec_message()
                == "internal error"@,
    {
        let params = match decode_create_user(req) {
            Ok(p) => p,
            Err(rej) => {
                return Err(error_into_status(Failure::Reject(rej)));
            },
        };
        let user = match self.0.create_user(params) {
            Ok(u) => u,
            Err(f) => {
                return Err(error_into_status(f));
            },
        };
        let ghost stored = user;
        let wire = match encode_user(user) {
            Ok(w) => w,
            Err(f) => {
                return Err(error_into_status(f));
            },
        };
        proof {
            assert(wire_user_matches(wire, stored));
        }
        Ok(CreateUserResponse { user: Some(wire) })
    }

    pub fn update_user(&mut self, req: UpdateUserRequest) -> (r: Result<
        UpdateUserResponse,
        Status,
    >)
        ensures
            final(self).inner().issued() == old(self).inner().issued(),
            final(self).inner().rows().dom() == old(self).inner().rows().dom(),
            req.id is None ==> status_invalid_argument(r, "unspecified user id"@) && final(self).inner().rows() == old(self).inner().rows(),
            req.id matches Some(w) ==> uuid_of(w.id@) is None ==> status_invalid_argument(
                r,
                uuid_parse_err_of(w.id@),
            ) && final(self).inner().rows() == old(self).inner().rows(),
            req.id matches Some(w) ==> uuid_of(w.id@) matches Some(v) ==> {
                &&& r matches Ok(resp) ==> old(self).inner().rows().contains_key(v) && (
                resp.user matches Some(wu) && (exists|u: User|
                    {
                        &&& #[trigger] wire_user_matches(wu, u)
                        &&& u.id.0 == v
                        &&& u.name.0 == req.name
                        &&& u.created_at == old(self).inner().rows()[v].created_at
                        &&& final(self).inner().rows() == old(self).inner().rows().insert(v, u)
                    }))
                &&& r matches Err(st) ==> st.spec_code() == Code::NotFound || st.spec_code()
                    == Code::Internal
                &&& r matches Err(st) ==> st.spec_code() == Code::NotFound ==> !old(
                    self,
                ).inner().rows().contains_key(v) && final(self).inner().rows() == old(
                    self,
                ).inner().rows()
            },
    {
        let params = match decode_update_user(req) {
            Ok(p) => p,
            Err(rej) => {
                return Err(error_into_status(Failure::Reject(rej)));
            },
        };
        let user = match self.0.update_user(params) {
            Ok(u) => u,
            Err(f) => {
                return Err(error_into_status(f));
            },
        };
        let ghost stored = user;
        let wire = match encode_user(user) {
            Ok(w) => w,
            Err(f) => {
                return Err(error_into_status(f));
            },
        };
        proof {
            assert(wire_user_matches(wire, stored));
        }
        Ok(UpdateUserResponse { user: Some(wire) })
    }

    pub fn delete_user(&mut self, req: DeleteUserRequest) -> (r: Result<
        DeleteUserResponse,
        Status,
    >)
        ensures
            final(self).inner().issued() == old(self).inner().issued(),
            req.id is None ==> status_invalid_argument(r, "unspecified user id"@) && final(self).inner().rows() == old(self).inner().rows(),
            req.id matches Some(w) ==> uuid_of(w.id@) is None ==> status_invalid_argument(
                r,
                uuid_parse_err_of(w.id@),
            ) && final(self).inner().rows() == old(self).inner().rows(),
            req.id matches Some(w) ==> uuid_of(w.id@) matches Some(v) ==> {
                &&& r matches Ok(resp) ==> old(self).inner().rows().contains_key(v) && (
                resp.user matches Some(wu) && wire_user_matches(
                    wu,
                    old(self).inner().rows()[v],
                )) && final(self).inner().rows() == old(self).inner().rows().remove(v)
                &&& r matches Err(st) ==> st.spec_code() == Code::NotFound || st.spec_code()
                    == Code::Internal
                &&& r matches Err(st) ==> st.spec_code() == Code::NotFound ==> !old(
                    self,
                ).inner().rows().contains_key(v) && final(self).inner().rows() == old(
                    self,
                ).inner().rows()
            },
    {
        let params = match decode_delete_user(req) {
            Ok(p) => p,
            Err(rej) => {
                return Err(error_into_status(Failure::Reject(rej)));
            },
        };
        let user = match self.0.delete_user(params) {
            Ok(u) => u,
            Err(f) => {
                return Err(error_into_status(f));
            },
        };
        let wire = match encode_user(user) {
            Ok(w) => w,
            Err(f) => {
                return Err(error_into_status(f));
            },
        };
        Ok(DeleteUserResponse { user: Some(wire) })
    }
}

} // verus!
