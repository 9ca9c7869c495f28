use chatting::error::{Failure, InternalError, Reject, RejectKind};
use chatting::router::{encode_reject_kind, error_into_status, Code};

#[test]
fn reject_new_keeps_kind_and_message() {
    let r = Reject::new(RejectKind::BadRequest, "nope".to_string());
    assert_eq!(r.kind(), RejectKind::BadRequest);
    assert_eq!(r.as_message(), "nope");
    assert_eq!(r.into_message(), "nope");
}

#[test]
fn reject_constructors_pick_their_kind() {
    assert_eq!(Reject::unauthenticated("a".to_string()).kind(), RejectKind::Unauthenticated);
    assert_eq!(Reject::bad_request("b".to_string()).kind(), RejectKind::BadRequest);
    assert_eq!(Reject::not_found("c".to_string()).kind(), RejectKind::NotFound);
}

#[test]
fn reject_kind_labels() {
    assert_eq!(RejectKind::Unauthenticated.as_str(), "Unauthenticated");
    assert_eq!(RejectKind::BadRequest.as_str(), "Bad request");
    assert_eq!(RejectKind::NotFound.as_str(), "Not found");
}

#[test]
fn reject_display_string() {
    let r = Reject::not_found("no such user".to_string());
    assert_eq!(r.display_string(), "Not found: no such user");
}

#[test]
fn failure_constructors_wrap_rejections() {
    match Failure::reject_bad_request("bad".to_string()) {
        Failure::Reject(r) => {
            assert_eq!(r.kind(), RejectKind::BadRequest);
            assert_eq!(r.as_message(), "bad");
        },
        Failure::Error(_) => panic!("expected a rejection"),
    }
    match Failure::reject_unauthenticated("who".to_string()) {
        Failure::Reject(r) => assert_eq!(r.kind(), RejectKind::Unauthenticated),
        Failure::Error(_) => panic!("expected a rejection"),
    }
    match Failure::reject_not_found("gone".to_string()) {
        Failure::Reject(r) => assert_eq!(r.kind(), RejectKind::NotFound),
        Failure::Error(_) => panic!("expected a rejection"),
    }
}

#[test]
fn failure_from_reject() {
    let f: Failure = Failure::from(Reject::not_found("gone".to_string()));
    match f {
        Failure::Reject(r) => assert_eq!(r.kind(), RejectKind::NotFound),
        Failure::Error(_) => panic!("expected a rejection"),
    }
}

#[test]
fn internal_error_keeps_cause_for_logs() {
    let e = InternalError::new("db broke".to_string());
    assert_eq!(e.as_cause(), "db broke");
}

#[test]
fn status_mapping_of_each_kind() {
    assert_eq!(encode_reject_kind(RejectKind::Unauthenticated), Code::Unauthenticated);
    assert_eq!(encode_reject_kind(RejectKind::BadRequest), Code::InvalidArgument);
    assert_eq!(encode_reject_kind(RejectKind::NotFound), Code::NotFound);
}

#[test]
fn rejection_status_keeps_message() {
    let st = error_into_status(Failure::reject_bad_request("not a number".to_string()));
    assert_eq!(st.code(), Code::InvalidArgument);
    assert_eq!(st.message(), "not a number");
    assert_eq!(st.cause(), None);

    let st = error_into_status(Failure::reject_unauthenticated("no token".to_string()));
    assert_eq!(st.code(), Code::Unauthenticated);
    assert_eq!(st.message(), "no token");

    let st = error_into_status(Failure::reject_not_found("User not found".to_string()));
    assert_eq!(st.code(), Code::NotFound);
    assert_eq!(st.message(), "User not found");
}

#[test]
fn internal_status_never_leaks_the_cause() {
    let st = error_into_status(Failure::internal("connection reset by peer".to_string()));
    assert_eq!(st.code(), Code::Internal);
    assert_eq!(st.message(), "internal error");
    // the cause stays available for server-side logs, out of band
    assert_eq!(st.cause(), Some("connection reset by peer"));
}

#[test]
fn internal_error_cause_moves_out_intact() {
    let e = InternalError::new("pool exhausted".to_string());
    assert_eq!(e.into_cause(), "pool exhausted");
}
