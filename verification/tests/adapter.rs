use chatting::ext::{parse_user_id, user_id_string};
use chatting::grpc::id::UserId as WireUserId;
use chatting::grpc::user::{
    CreateUserRequest, DeleteUserRequest, GetUserRequest, UpdateUserRequest,
};
use chatting::router::user::Service;
use chatting::router::Code;
use chatting::user::svc::MemStore;
use chatting::user::{Provider, UserServiceImpl};

type WireService = Service<Provider<UserServiceImpl, MemStore>>;

fn fresh_service() -> WireService {
    Service::new(Provider::new(UserServiceImpl, MemStore::new()))
}

fn wire_id(id: &str) -> Option<WireUserId> {
    Some(WireUserId { id: id.to_string() })
}

#[test]
fn uuid_string_round_trips_through_the_parser() {
    let s = user_id_string(1);
    assert_eq!(s, "00000000-0000-0000-0000-000000000001");
    assert_eq!(parse_user_id(&s), Ok(1));
    assert_eq!(
        parse_user_id("550e8400-e29b-41d4-a716-446655440000"),
        Ok(0x550e8400_e29b_41d4_a716_446655440000)
    );
    assert!(parse_user_id("not-a-uuid").is_err());
}

#[test]
fn create_returns_the_encoded_fresh_entity() {
    let mut svc = fresh_service();
    let resp = svc.create_user(CreateUserRequest { name: "Alice".to_string() }).unwrap();
    let user = resp.user.expect("a full response carries the user");
    assert_eq!(user.name, "Alice");
    let id = user.id.expect("the encoded user carries its id");
    // the wire identifier is the canonical string form: it parses back
    assert!(parse_user_id(&id.id).is_ok());
    assert_eq!(user.created_at, user.updated_at);
}

#[test]
fn created_user_can_be_fetched_by_its_wire_id() {
    let mut svc = fresh_service();
    let created = svc
        .create_user(CreateUserRequest { name: "Alice".to_string() })
        .unwrap()
        .user
        .unwrap();
    let id = created.id.unwrap().id;
    let got = svc.get_user(GetUserRequest { id: wire_id(&id) }).unwrap().user.unwrap();
    assert_eq!(got.name, created.name);
    assert_eq!(got.id.unwrap().id, id);
    assert_eq!(got.created_at, created.created_at);
    assert_eq!(got.updated_at, created.updated_at);
}

#[test]
fn missing_id_is_a_bad_request_with_the_fixed_message() {
    let mut svc = fresh_service();
    let st = svc.get_user(GetUserRequest { id: None }).unwrap_err();
    assert_eq!(st.code(), Code::InvalidArgument);
    assert_eq!(st.message(), "unspecified user id");

    let st = svc
        .update_user(UpdateUserRequest { id: None, name: "x".to_string() })
        .unwrap_err();
    assert_eq!(st.code(), Code::InvalidArgument);
    assert_eq!(st.message(), "unspecified user id");

    let st = svc.delete_user(DeleteUserRequest { id: None }).unwrap_err();
    assert_eq!(st.code(), Code::InvalidArgument);
    assert_eq!(st.message(), "unspecified user id");
}

#[test]
fn malformed_id_is_a_bad_request_never_an_internal_failure() {
    let mut svc = fresh_service();

    let st = svc.get_user(GetUserRequest { id: wire_id("not-a-uuid") }).unwrap_err();
    assert_eq!(st.code(), Code::InvalidArgument);
    assert!(!st.message().is_empty());

    let st = svc
        .update_user(UpdateUserRequest { id: wire_id("###"), name: "x".to_string() })
        .unwrap_err();
    assert_eq!(st.code(), Code::InvalidArgument);

    let st = svc.delete_user(DeleteUserRequest { id: wire_id("") }).unwrap_err();
    assert_eq!(st.code(), Code::InvalidArgument);
}

#[test]
fn absent_id_yields_not_found_on_get_update_delete() {
    let mut svc = fresh_service();
    let absent = "00000000-0000-0000-0000-000000000000";

    let st = svc.get_user(GetUserRequest { id: wire_id(absent) }).unwrap_err();
    assert_eq!(st.code(), Code::NotFound);

    let st = svc
        .update_user(UpdateUserRequest { id: wire_id(absent), name: "x".to_string() })
        .unwrap_err();
    assert_eq!(st.code(), Code::NotFound);

    let st = svc.delete_user(DeleteUserRequest { id: wire_id(absent) }).unwrap_err();
    assert_eq!(st.code(), Code::NotFound);
}

#[test]
fn create_never_yields_not_found() {
    let mut svc = fresh_service();
    for _ in 0..16 {
        let r = svc.create_user(CreateUserRequest { name: String::new() });
        match r {
            Ok(_) => {},
            Err(st) => assert_ne!(st.code(), Code::NotFound),
        }
    }
}

#[test]
fn full_scenario_create_update_delete_get() {
    let mut svc = fresh_service();

    let created = svc
        .create_user(CreateUserRequest { name: "Alice".to_string() })
        .unwrap()
        .user
        .unwrap();
    assert_eq!(created.name, "Alice");
    assert_eq!(created.created_at, created.updated_at);
    let id = created.id.unwrap().id;

    let updated = svc
        .update_user(UpdateUserRequest { id: wire_id(&id), name: "Alicia".to_string() })
        .unwrap()
        .user
        .unwrap();
    assert_eq!(updated.name, "Alicia");
    assert_eq!(updated.id.as_ref().unwrap().id, id);
    assert_eq!(updated.created_at, created.created_at);
    let (cs, un) = (updated.created_at.unwrap(), updated.updated_at.unwrap());
    assert!((un.seconds, un.nanos) >= (cs.seconds, cs.nanos));

    let removed = svc
        .delete_user(DeleteUserRequest { id: wire_id(&id) })
        .unwrap()
        .user
        .unwrap();
    assert_eq!(removed.name, "Alicia");
    assert_eq!(removed.id.as_ref().unwrap().id, id);

    let st = svc.get_user(GetUserRequest { id: wire_id(&id) }).unwrap_err();
    assert_eq!(st.code(), Code::NotFound);
}
