//! Domain model of the user resource: the entity, the per-operation
//! intent types, the abstract service contract, and the provider
//! abstraction that binds a service implementation to its execution
//! context.

use vstd::prelude::*;

use crate::error::{Failure, RejectKind};
use crate::prelude::Timestamp;

pub mod svc;

pub use svc::Impl as UserServiceImpl;

verus! {

/// An opaque 128-bit identifier, assigned by the create operation and
/// never by the caller.
#[derive(Debug, Clone, Copy, PartialEq, Eq, Hash, Structural)]
pub struct UserId(pub u128);

/// A display name; no validation policy is imposed on it.
#[derive(Debug)]
pub struct UserName(pub String);

impl Clone for UserName {
    fn clone(&self) -> (r: Self)
        ensures
            r == *self,
    {
        UserName(self.0.clone())
    }
}

impl PartialEq for UserName {
    fn eq(&self, other: &Self) -> (r: bool) {
        self.0 == other.0
    }
}

impl vstd::std_specs::cmp::PartialEqSpecImpl for UserName {
    open spec fn obeys_eq_spec() -> bool {
        true
    }

    open spec fn eq_spec(&self, other: &Self) -> bool {
        self.0@ == other.0@
    }
}

/// The persisted user entity. `created_at` is set once at creation;
/// `updated_at` moves on every successful update.
#[derive(Debug)]
pub struct User {
    pub id: UserId,
    pub name: UserName,
    pub created_at: Timestamp,
    pub updated_at: Timestamp,
}

impl Clone for User {
    fn clone(&self) -> (r: Self)
        ensures
            r == *self,
    {
        User {
            id: self.id,
            name: self.name.clone(),
            created_at: self.created_at,
            updated_at: self.updated_at,
        }
    }
}

impl PartialEq for User {
    fn eq(&self, other: &Self) -> (r: bool) {
        self.id == other.id && self.name == other.name && self.created_at == other.created_at
            && self.updated_at == other.updated_at
    }
}

impl vstd::std_specs::cmp::PartialEqSpecImpl for User {
    open spec fn obeys_eq_spec() -> bool {
        true
    }

    open spec fn eq_spec(&self, other: &Self) -> bool {
        self.id == other.id && self.name.0@ == other.name.0@ && self.created_at
            == other.created_at && self.updated_at == other.updated_at
    }
}

/// Intent of a read: fetch the entity with this identifier.
#[derive(Debug, Clone, Copy, PartialEq, Eq, Hash, Structural)]
pub struct GetUserParams {
    pub id: UserId,
}

/// Intent of a creation: a new entity with this name.
#[derive(Debug)]
pub struct CreateUserParams {
    pub name: UserName,
}

/// Intent of an update: rename the entity with this identifier.
#[derive(Debug)]
pub struct UpdateUserParams {
    pub id: UserId,
    pub name: UserName,
}

/// Intent of a removal: delete the entity with this identifier.
#[derive(Debug, Clone, Copy, PartialEq, Eq, Hash, Structural)]
pub struct DeleteUserParams {
    pub id: UserId,
}

/// The abstract business-operation contract, polymorphic over the
/// execution context a concrete implementation needs.
///
/// The two spec functions give the abstract state an implementation
/// maintains in its context: the stored rows keyed by identifier, and
/// every identifier ever issued (a superset of the stored keys, since
/// an identifier is never reused after deletion). Each operation is
/// specified against that state; an implementation may always fail
/// with an internal error, but a rejection is only ever the `NotFound`
/// that the contract owes, and a successful result is pinned exactly.
pub trait UserService<Context>: Sized {
    /// The rows the context currently stores, keyed by identifier.
    spec fn rows(ctx: Context) -> Map<u128, User>;

    /// Every identifier the context has ever issued.
    spec fn issued(ctx: Context) -> Set<u128>;

    fn get_user(&self, ctx: &mut Context, params: GetUserParams) -> (r: Result<User, Failure>)
        ensures
            Self::rows(*final(ctx)) == Self::rows(*old(ctx)),
            Self::issued(*final(ctx)) == Self::issued(*old(ctx)),
            r matches Ok(u) ==> Self::rows(*old(ctx)).contains_key(params.id.0) && u == Self::rows(
                *old(ctx),
            )[params.id.0] && u.created_at.wf() && u.updated_at.wf(),
            r matches Err(Failure::Reject(rej)) ==> rej.spec_kind() == RejectKind::NotFound
                && !Self::rows(*old(ctx)).contains_key(params.id.0),
    ;

    fn create_user(&self, ctx: &mut Context, params: CreateUserParams) -> (r: Result<
        User,
        Failure,
    >)
        ensures
            r matches Ok(u) ==> !Self::issued(*old(ctx)).contains(u.id.0) && Self::rows(
                *final(ctx),
            ) == Self::rows(*old(ctx)).insert(u.id.0, u) && Self::issued(*final(ctx))
                == Self::issued(*old(ctx)).insert(u.id.0) && u.name == params.name && u.created_at
                == u.updated_at && u.created_at.wf(),
            r matches Err(f) ==> f matches Failure::Error(_),
    ;

    fn update_user(&self, ctx: &mut Context, params: UpdateUserParams) -> (r: Result<
        User,
        Failure,
    >)
        ensures
            Self::issued(*final(ctx)) == Self::issued(*old(ctx)),
            Self::rows(*final(ctx)).dom() == Self::rows(*old(ctx)).dom(),
            r matches Ok(u) ==> Self::rows(*old(ctx)).contains_key(params.id.0) && u.id
                == params.id && u.name == params.name && u.created_at == Self::rows(
                *old(ctx),
            )[params.id.0].created_at && Self::rows(*final(ctx)) == Self::rows(*old(ctx)).insert(
                params.id.0,
                u,
            ) && u.created_at.wf() && u.updated_at.wf(),
            r matches Err(Failure::Reject(rej)) ==> rej.spec_kind() == RejectKind::NotFound
                && !Self::rows(*old(ctx)).contains_key(params.id.0) && Self::rows(*final(ctx))
                == Self::rows(*old(ctx)),
    ;

    fn delete_user(&self, ctx: &mut Context, params: DeleteUserParams) -> (r: Result<
        User,
        Failure,
    >)
        ensures
            Self::issued(*final(ctx)) == Self::issued(*old(ctx)),
            r matches Ok(u) ==> Self::rows(*old(ctx)).contains_key(params.id.0) && u == Self::rows(
                *old(ctx),
            )[params.id.0] && Self::rows(*final(ctx)) == Self::rows(*old(ctx)).remove(params.id.0)
                && u.created_at.wf() && u.updated_at.wf(),
            r matches Err(Failure::Reject(rej)) ==> rej.spec_kind() == RejectKind::NotFound
                && !Self::rows(*old(ctx)).contains_key(params.id.0) && Self::rows(*final(ctx))
                == Self::rows(*old(ctx)),
    ;
}

/// A binding of one service implementation to one concrete context,
/// offering the four operations as direct calls. The transport adapter
/// depends only on this trait, never on a concrete storage technology.
pub trait ProvideUserService: Sized {
    type Context;

    type UserService: UserService<Self::Context>;

    /// The rows of the bound context.
    spec fn rows(&self) -> Map<u128, User>;

    /// Every identifier the bound context has ever issued.
    spec fn issued(&self) -> Set<u128>;

    fn get_user(&mut self, params: GetUserParams) -> (r: Result<User, Failure>)
        ensures
            final(self).rows() == old(self).rows(),
            final(self).issued() == old(self).issued(),
            r matches Ok(u) ==> old(self).rows().contains_key(params.id.0) && u == old(
                self,
            ).rows()[params.id.0] && u.created_at.wf() && u.updated_at.wf(),
            r matches Err(Failure::Reject(rej)) ==> rej.spec_kind() == RejectKind::NotFound && !old(
                self,
            ).rows().contains_key(params.id.0),
    ;

    fn create_user(&mut self, params: CreateUserParams) -> (r: Result<User, Failure>)
        ensures
            r matches Ok(u) ==> !old(self).issued().contains(u.id.0) && final(self).rows() == old(
                self,
            ).rows().insert(u.id.0, u) && final(self).issued() == old(self).issued().insert(u.id.0)
                && u.name == params.name && u.created_at == u.updated_at && u.created_at.wf(),
            r matches Err(f) ==> f matches Failure::Error(_),
    ;

    fn update_user(&mut self, params: UpdateUserParams) -> (r: Result<User, Failure>)
        ensures
            final(self).issued() == old(self).issued(),
            final(self).rows().dom() == old(self).rows().dom(),
            r matches Ok(u) ==> old(self).rows().contains_key(params.id.0) && u.id == params.id
                && u.name == params.name && u.created_at == old(
                self,
            ).rows()[params.id.0].created_at && final(self).rows() == old(self).rows().insert(
                params.id.0,
                u,
            ) && u.created_at.wf() && u.updated_at.wf(),
            r matches Err(Failure::Reject(rej)) ==> rej.spec_kind() == RejectKind::NotFound && !old(
                self,
            ).rows().contains_key(params.id.0) && final(self).rows() == old(self).rows(),
    ;

    fn delete_user(&mut self, params: DeleteUserParams) -> (r: Result<User, Failure>)
        ensures
            final(self).issued() == old(self).issued(),
            r matches Ok(u) ==> old(self).rows().contains_key(params.id.0) && u == old(
                self,
            ).rows()[params.id.0] && final(self).rows() == old(self).rows().remove(params.id.0)
                && u.created_at.wf() && u.updated_at.wf(),
            r matches Err(Failure::Reject(rej)) ==> rej.spec_kind() == RejectKind::NotFound && !old(
                self,
            ).rows().contains_key(params.id.0) && final(self).rows() == old(self).rows(),
    ;
}

/// The concrete provider: owns a service implementation and its
/// context and forwards each operation unchanged (pure delegation).
#[derive(Debug)]
pub struct Provider<S, C> {
    service: S,
    context: C,
}

impl<S, C> Provider<S, C> where S: UserService<C> {
    pub closed spec fn spec_service(&self) -> S {
        self.service
    }

    pub closed spec fn spec_context(&self) -> C {
        self.context
    }

    pub fn new(service: S, context: C) -> (p: Self)
        ensures
            p.spec_service() == service,
            p.spec_context() == context,
    {
        Provider { service, context }
    }

    pub fn user_service(&self) -> (s: &S)
        ensures
            *s == self.spec_service(),
    {
        &self.service
    }

    pub fn context(&self) -> (c: &C)
        ensures
            *c == self.spec_context(),
    {
        &self.context
    }
}

impl<S, C> ProvideUserService for Provider<S, C> where S: UserService<C> {
    type Context = C;

    type UserService = S;

    open spec fn rows(&self) -> Map<u128, User> {
        S::rows(self.spec_context())
    }

    open spec fn issued(&self) -> Set<u128> {
        S::issued(self.spec_context())
    }

    fn get_user(&mut self, params: GetUserParams) -> (r: Result<User, Failure>) {
        let service = &self.service;
        service.get_user(&mut self.context, params)
    }

    fn create_user(&mut self, params: CreateUserParams) -> (r: Result<User, Failure>) {
        let service = &self.service;
        service.create_user(&mut self.context, params)
    }

    fn update_user(&mut self, params: UpdateUserParams) -> (r: Result<User, Failure>) {
        let service = &self.service;
        service.update_user(&mut self.context, params)
    }

    fn delete_user(&mut self, params: DeleteUserParams) -> (r: Result<User, Failure>) {
        let service = &self.service;
        service.delete_user(&mut self.context, params)
    }
}

} // verus!
