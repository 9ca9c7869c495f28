use chatting::error::{Failure, RejectKind};
use chatting::prelude::Timestamp;
use chatting::user::svc::MemStore;
use chatting::user::{
    CreateUserParams, DeleteUserParams, GetUserParams, ProvideUserService, Provider,
    UpdateUserParams, User, UserId, UserName, UserServiceImpl,
};

fn ts(secs: i64, nanos: u32) -> Timestamp {
    Timestamp { secs, nanos }
}

fn create_params(name: &str) -> CreateUserParams {
    CreateUserParams { name: UserName(name.to_string()) }
}

#[test]
fn create_sets_both_timestamps_to_now() {
    let mut store = MemStore::new();
    let u = store.create(create_params("Alice"), UserId(1), ts(50, 3)).unwrap();
    assert_eq!(u.id, UserId(1));
    assert_eq!(u.name.0, "Alice");
    assert_eq!(u.created_at, ts(50, 3));
    assert_eq!(u.updated_at, ts(50, 3));
}

#[test]
fn create_then_get_round_trips_all_fields() {
    let mut store = MemStore::new();
    let u = store.create(create_params("Alice"), UserId(9), ts(10, 0)).unwrap();
    let got = store.get(UserId(9));
    assert_eq!(got, Some(u));
}

#[test]
fn repeated_get_is_identical() {
    let mut store = MemStore::new();
    store.create(create_params("Alice"), UserId(9), ts(10, 0)).unwrap();
    let first = store.get(UserId(9));
    let second = store.get(UserId(9));
    assert_eq!(first, second);
    assert_eq!(store.get(UserId(8)), store.get(UserId(8)));
}

#[test]
fn get_absent_id_finds_nothing() {
    let store = MemStore::new();
    assert_eq!(store.get(UserId(123)), None);
}

#[test]
fn update_existing_renames_and_advances_updated_at() {
    let mut store = MemStore::new();
    let before = store.create(create_params("Alice"), UserId(2), ts(100, 500)).unwrap();
    let updated = store
        .update(UpdateUserParams { id: UserId(2), name: UserName("Alicia".to_string()) }, ts(101, 0))
        .unwrap();
    assert_eq!(updated.name.0, "Alicia");
    assert_eq!(updated.id, before.id);
    assert_eq!(updated.created_at, before.created_at);
    assert!(before.updated_at.before(&updated.updated_at));
    assert_eq!(store.get(UserId(2)), Some(updated));
}

#[test]
fn update_absent_id_finds_nothing() {
    let mut store = MemStore::new();
    let r = store.update(
        UpdateUserParams { id: UserId(5), name: UserName("x".to_string()) },
        ts(1, 0),
    );
    assert_eq!(r, None);
}

#[test]
fn delete_returns_pre_deletion_state_and_forgets_the_row() {
    let mut store = MemStore::new();
    let u = store.create(create_params("Alice"), UserId(3), ts(7, 7)).unwrap();
    let removed = store.delete(DeleteUserParams { id: UserId(3) }).unwrap();
    assert_eq!(removed, u);
    assert_eq!(store.get(UserId(3)), None);
}

#[test]
fn delete_absent_id_finds_nothing() {
    let mut store = MemStore::new();
    assert_eq!(store.delete(DeleteUserParams { id: UserId(4) }), None);
}

#[test]
fn deleted_id_is_never_reissued() {
    let mut store = MemStore::new();
    store.create(create_params("Alice"), UserId(6), ts(1, 0)).unwrap();
    store.delete(DeleteUserParams { id: UserId(6) }).unwrap();
    let again = store.create(create_params("Bob"), UserId(6), ts(2, 0));
    match again {
        Err(Failure::Error(_)) => {},
        Err(Failure::Reject(_)) => panic!("a reused id must be an internal failure, not a rejection"),
        Ok(_) => panic!("a previously issued id must not be reissued"),
    }
}

#[test]
fn duplicate_create_is_an_internal_failure_not_a_rejection() {
    let mut store = MemStore::new();
    store.create(create_params("Alice"), UserId(8), ts(1, 0)).unwrap();
    match store.create(create_params("Eve"), UserId(8), ts(2, 0)) {
        Err(Failure::Error(_)) => {},
        _ => panic!("expected an internal failure"),
    }
}

#[test]
fn leap_second_nanos_are_clamped() {
    let t = Timestamp::from_parts(60, 1_500_000_000);
    assert_eq!(t.secs, 60);
    assert_eq!(t.nanos, 999_999_999);
    let plain = Timestamp::from_parts(60, 123);
    assert_eq!(plain, ts(60, 123));
}

#[test]
fn timestamp_order_is_lexicographic() {
    assert!(ts(1, 999_999_999).before(&ts(2, 0)));
    assert!(ts(2, 1).before(&ts(2, 2)));
    assert!(!ts(2, 2).before(&ts(2, 2)));
    assert!(!ts(3, 0).before(&ts(2, 999)));
}

#[test]
fn convert_timestamp_exact_value() {
    let w = chatting::prelude::convert_timestamp(ts(1_700_000_000, 250)).unwrap();
    assert_eq!(w.seconds, 1_700_000_000);
    assert_eq!(w.nanos, 250);
}

#[test]
fn user_equality_is_field_equality() {
    let a = User {
        id: UserId(1),
        name: UserName("Alice".to_string()),
        created_at: ts(1, 2),
        updated_at: ts(3, 4),
    };
    let b = User {
        id: UserId(1),
        name: UserName("Alice".to_string()),
        created_at: ts(1, 2),
        updated_at: ts(3, 4),
    };
    let c = User { name: UserName("Bob".to_string()), ..b.clone() };
    assert_eq!(a, b);
    assert_ne!(a, c);
}

#[test]
fn provider_forwards_the_service_operations() {
    // the storage-backed implementation draws a fresh identifier and
    // the current clock itself
    let mut provider = Provider::new(UserServiceImpl, MemStore::new());
    let created = provider.create_user(create_params("Alice")).unwrap();
    assert_eq!(created.name.0, "Alice");
    assert_eq!(created.created_at, created.updated_at);

    let got = provider.get_user(GetUserParams { id: created.id }).unwrap();
    assert_eq!(got, created);

    let second = provider.create_user(create_params("Bob")).unwrap();
    assert_ne!(second.id, created.id);

    let removed = provider.delete_user(DeleteUserParams { id: created.id }).unwrap();
    assert_eq!(removed, got);

    let missing = provider.get_user(GetUserParams { id: created.id });
    match missing {
        Err(Failure::Reject(r)) => {
            assert_eq!(r.kind(), RejectKind::NotFound);
            assert_eq!(r.as_message(), "User not found");
        },
        _ => panic!("expected a not-found rejection"),
    }
}
