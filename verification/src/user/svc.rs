//! The storage-backed service implementation: an in-memory store as
//! the execution context, the service contract implemented against it
//! with exact CRUD semantics, and the laws those semantics obey.

use vstd::prelude::*;

use std::collections::HashMap;

use crate::error::Failure;
use crate::prelude::Timestamp;
use crate::user::{
    CreateUserParams, DeleteUserParams, GetUserParams, UpdateUserParams, User, UserId, UserName,
    UserService,
};

verus! {

broadcast use vstd::std_specs::hash::group_hash_axioms;

/// The entity that a creation at instant `now` stores: both timestamps
/// start at `now`.
pub open spec fn created_user(id: UserId, name: UserName, now: Timestamp) -> User {
    User { id, name, created_at: now, updated_at: now }
}

/// The entity that an update of `prev` at instant `now` stores: the
/// name is replaced, the creation instant kept, the update instant
/// refreshed.
pub open spec fn updated_user(prev: User, name: UserName, now: Timestamp) -> User {
    User { id: prev.id, name, created_at: prev.created_at, updated_at: now }
}

/// What a point lookup yields on a given rows map.
pub open spec fn spec_get(rows: Map<u128, User>, id: u128) -> Option<User> {
    if rows.contains_key(id) {
        Some(rows[id])
    } else {
        None
    }
}

/// An in-memory storage backend: rows keyed by identifier, plus the
/// set of every identifier ever issued, kept so that an identifier is
/// never reused after deletion.
#[derive(Debug)]
pub struct MemStore {
    users: HashMap<u128, User>,
    issued: HashMap<u128, ()>,
}

impl MemStore {
    /// The rows currently stored, keyed by identifier.
    pub closed spec fn spec_rows(&self) -> Map<u128, User> {
        self.users@
    }

    /// Every identifier ever issued by this store.
    pub closed spec fn spec_issued(&self) -> Set<u128> {
        self.issued@.dom()
    }

    #[verifier::type_invariant]
    spec fn inv(self) -> bool {
        forall|k: u128| #[trigger] self.users@.contains_key(k) ==> self.issued@.contains_key(k)
            && self.users@[k].id.0 == k && self.users@[k].created_at.wf()
            && self.users@[k].updated_at.wf()
    }

    pub fn new() -> (s: MemStore)
        ensures
            s.spec_rows() == Map::<u128, User>::empty(),
            s.spec_issued() == Set::<u128>::empty(),
    {
        let s = MemStore { users: HashMap::new(), issued: HashMap::new() };
        proof {
            assert(s.spec_issued() =~= Set::<u128>::empty());
        }
        s
    }

    /// Point lookup by identifier.
    pub fn get(&self, id: UserId) -> (r: Option<User>)
        ensures
            r == spec_get(self.spec_rows(), id.0),
    {
        match self.users.get(&id.0) {
            Some(u) => Some(u.clone()),
            None => None,
        }
    }

    /// Stores a fresh entity under `id` with both timestamps at `now`.
    /// An identifier that was ever issued before — even for a row since
    /// deleted — is refused with an internal error, never reissued.
    pub fn create(&mut self, params: CreateUserParams, id: UserId, now: Timestamp) -> (r: Result<
        User,
        Failure,
    >)
        requires
            now.wf(),
        ensures
            r is Ok <==> !old(self).spec_issued().contains(id.0),
            r matches Ok(u) ==> u == created_user(id, params.name, now) && final(self).spec_rows()
                == old(self).spec_rows().insert(id.0, u) && final(self).spec_issued() == old(
                self,
            ).spec_issued().insert(id.0),
            r matches Err(f) ==> f matches Failure::Error(_) && *final(self) == *old(self),
    {
        proof {
            use_type_invariant(&*self);
        }
        if self.issued.contains_key(&id.0) {
            return Err(Failure::internal(String::from_str("user id already issued")));
        }
        let user = User { id, name: params.name, created_at: now, updated_at: now };
        let stored = user.clone();
        let mut users: HashMap<u128, User> = HashMap::new();
        std::mem::swap(&mut users, &mut self.users);
        let mut issued: HashMap<u128, ()> = HashMap::new();
        std::mem::swap(&mut issued, &mut self.issued);
        issued.insert(id.0, ());
        users.insert(id.0, stored);
        std::mem::swap(&mut issued, &mut self.issued);
        std::mem::swap(&mut users, &mut self.users);
        proof {
            assert(final(self).spec_issued() =~= old(self).spec_issued().insert(id.0));
        }
        Ok(user)
    }

    /// Renames the entity under the given identifier and refreshes its
    /// update instant to `now`; yields nothing when no row matches.
    pub fn update(&mut self, params: UpdateUserParams, now: Timestamp) -> (r: Option<User>)
        requires
            now.wf(),
        ensures
            final(self).spec_issued() == old(self).spec_issued(),
            r is Some <==> old(self).spec_rows().contains_key(params.id.0),
            r matches Some(u) ==> u == updated_user(
                old(self).spec_rows()[params.id.0],
                params.name,
                now,
            ) && final(self).spec_rows() == old(self).spec_rows().insert(params.id.0, u),
            r is None ==> *final(self) == *old(self),
    {
        proof {
            use_type_invariant(&*self);
        }
        let prev_created = match self.users.get(&params.id.0) {
            Some(u) => u.created_at,
            None => {
                return None;
            },
        };
        let user = User {
            id: params.id,
            name: params.name,
            created_at: prev_created,
            updated_at: now,
        };
        let stored = user.clone();
        let mut users: HashMap<u128, User> = HashMap::new();
        std::mem::swap(&mut users, &mut self.users);
        users.insert(params.id.0, stored);
        std::mem::swap(&mut users, &mut self.users);
        Some(user)
    }

    /// Removes the entity under the given identifier, yielding it as it
    /// was immediately before removal; the identifier stays issued.
    pub fn delete(&mut self, params: DeleteUserParams) -> (r: Option<User>)
        ensures
            final(self).spec_issued() == old(self).spec_issued(),
            r is Some <==> old(self).spec_rows().contains_key(params.id.0),
            r matches Some(u) ==> u == old(self).spec_rows()[params.id.0]
                && final(self).spec_rows() == old(self).spec_rows().remove(params.id.0),
            r is None ==> final(self).spec_rows() == old(self).spec_rows(),
    {
        proof {
            use_type_invariant(&*self);
        }
        let mut users: HashMap<u128, User> = HashMap::new();
        std::mem::swap(&mut users, &mut self.users);
        let removed = users.remove(&params.id.0);
        std::mem::swap(&mut users, &mut self.users);
        proof {
            if removed is None {
                assert(final(self).spec_rows() =~= old(self).spec_rows());
            }
        }
        removed
    }
}

/// The storage-backed implementation of the service contract: a fresh
/// identifier and the current time at creation, `NotFound` wherever no
/// row matches.
#[derive(Debug, Clone, Copy)]
pub struct Impl;

impl Default for Impl {
    fn default() -> (r: Self)
        ensures
            r == Impl,
    {
        Impl
    }
}

impl UserService<MemStore> for Impl {
    open spec fn rows(ctx: MemStore) -> Map<u128, User> {
        ctx.spec_rows()
    }

    open spec fn issued(ctx: MemStore) -> Set<u128> {
        ctx.spec_issued()
    }

    // The in-memory lookup cannot fail internally: with the trait
    // contract this owes success exactly when the row exists, and the
    // same NotFound rejection, message included, whenever it does not.
    fn get_user(&self, ctx: &mut MemStore, params: GetUserParams) -> (r: Result<User, Failure>)
        ensures
            r is Err ==> (r matches Err(Failure::Reject(rej)) && rej.spec_message()
                == "User not found"@),
    {
        proof {
            use_type_invariant(&*ctx);
        }
        match ctx.get(params.id) {
            Some(u) => Ok(u),
            None => Err(Failure::reject_not_found(String::from_str("User not found"))),
        }
    }

    fn create_user(&self, ctx: &mut MemStore, params: CreateUserParams) -> (r: Result<
        User,
        Failure,
    >) {
        let id = UserId(crate::ext::generate_user_id());
        let now = Timestamp::now();
        ctx.create(params, id, now)
    }

    // The in-memory rename cannot fail internally; only a missing row
    // is refused, always with the same NotFound rejection.
    fn update_user(&self, ctx: &mut MemStore, params: UpdateUserParams) -> (r: Result<
        User,
        Failure,
    >)
        ensures
            r is Err ==> (r matches Err(Failure::Reject(rej)) && rej.spec_message()
                == "User not found"@),
    {
        proof {
            use_type_invariant(&*ctx);
        }
        let now = Timestamp::now();
        match ctx.update(params, now) {
            Some(u) => {
                proof {
                    assert(ctx.spec_rows().dom() =~= old(ctx).spec_rows().dom());
                }
                Ok(u)
            },
            None => Err(Failure::reject_not_found(String::from_str("User not found"))),
        }
    }

    // The in-memory removal cannot fail internally; only a missing row
    // is refused, always with the same NotFound rejection.
    fn delete_user(&self, ctx: &mut MemStore, params: DeleteUserParams) -> (r: Result<
        User,
        Failure,
    >)
        ensures
            r is Err ==> (r matches Err(Failure::Reject(rej)) && rej.spec_message()
                == "User not found"@),
    {
        proof {
            use_type_invariant(&*ctx);
        }
        match ctx.delete(params) {
            Some(u) => Ok(u),
            None => Err(Failure::reject_not_found(String::from_str("User not found"))),
        }
    }
}

/// For any freshly created entity, a subsequent lookup returns that
/// entity, equal in all fields.
pub proof fn lemma_create_then_get(
    rows: Map<u128, User>,
    issued: Set<u128>,
    id: UserId,
    name: UserName,
    now: Timestamp,
)
    requires
        !issued.contains(id.0),
    ensures
        ({
            let u = created_user(id, name, now);
            spec_get(rows.insert(id.0, u), id.0) == Some(u)
        }),
{
}

/// Repeated lookups with no intervening mutation return identical
/// results: a lookup is a function of the stored rows alone.
pub proof fn lemma_get_idempotent(
    rows: Map<u128, User>,
    id: UserId,
    first: Option<User>,
    second: Option<User>,
)
    requires
        first == spec_get(rows, id.0),
        second == spec_get(rows, id.0),
    ensures
        first == second,
{
}

/// Updating an existing entity yields the new name under the same
/// identifier, keeps the creation instant, and moves the update
/// instant strictly forward — provided the clock has advanced past the
/// entity's last update.
pub proof fn lemma_update_semantics(
    rows: Map<u128, User>,
    id: UserId,
    name: UserName,
    now: Timestamp,
)
    requires
        rows.contains_key(id.0),
        rows[id.0].id == id,
        rows[id.0].updated_at.spec_lt(now),
    ensures
        ({
            let u = updated_user(rows[id.0], name, now);
            &&& u.id == id
            &&& u.name == name
            &&& u.created_at == rows[id.0].created_at
            &&& rows[id.0].updated_at.spec_lt(u.updated_at)
            &&& spec_get(rows.insert(id.0, u), id.0) == Some(u)
        }),
{
}

/// Deleting an existing entity returns it as it was immediately before
/// removal, and a subsequent lookup finds nothing.
pub proof fn lemma_delete_semantics(rows: Map<u128, User>, id: UserId)
    requires
        rows.contains_key(id.0),
    ensures
        spec_get(rows, id.0) == Some(rows[id.0]),
        spec_get(rows.remove(id.0), id.0) is None,
{
}

} // verus!
