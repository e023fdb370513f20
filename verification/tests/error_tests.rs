use thruster_grpc::context::ProtoContext;
use thruster_grpc::error::{apply_outcome, Outcome, ProtoErrorSet, RpcError};
use thruster_grpc::status::ProtoStatus;

fn fresh() -> ProtoContext<()> {
    ProtoContext::new(vec![], ())
}

#[test]
fn already_exists_maps_to_409_and_6() {
    let err: RpcError<()> = RpcError::already_exists_error(fresh());
    assert_eq!(err.context.status, 409);
    assert_eq!(err.context.headers.get("grpc-status").unwrap().as_str(), "6");
    assert_eq!(err.message.as_str(), "Already exists");
    assert!(err.cause.is_none());
}

#[test]
fn parsing_error_maps_to_400_and_3_and_quotes_the_detail() {
    let err: RpcError<()> = RpcError::parsing_error(fresh(), "age field");
    assert_eq!(err.context.status, 400);
    assert_eq!(err.context.headers.get("grpc-status").unwrap().as_str(), "3");
    assert_eq!(err.message.as_str(), "Failed to parse 'age field'");
    assert!(err.cause.is_none());
}

#[test]
fn generic_error_maps_to_400_and_3() {
    let err: RpcError<()> = RpcError::generic_error(fresh());
    assert_eq!(err.context.status, 400);
    assert_eq!(err.context.headers.get("grpc-status").unwrap().as_str(), "3");
    assert_eq!(err.message.as_str(), "Something didn't work!");
    assert!(err.cause.is_none());
}

#[test]
fn unauthorized_maps_to_401_and_16() {
    let err: RpcError<()> = RpcError::unauthorized_error(fresh());
    assert_eq!(err.context.status, 401);
    assert_eq!(
        err.context.headers.get("grpc-status").unwrap().as_str(),
        "16"
    );
    assert_eq!(err.message.as_str(), "Unauthorized");
    assert!(err.cause.is_none());
}

#[test]
fn not_found_maps_to_404_and_5() {
    let err: RpcError<()> = RpcError::not_found_error(fresh());
    assert_eq!(err.context.status, 404);
    assert_eq!(err.context.headers.get("grpc-status").unwrap().as_str(), "5");
    assert_eq!(err.message.as_str(), "Not found");
    assert!(err.cause.is_none());
}

#[test]
fn mapping_ignores_the_carried_text() {
    // The same (HTTP status, protocol code) pair comes out whatever
    // message an outcome carries.
    for text in [None, Some(String::from("a")), Some(String::from("bb"))] {
        let err: RpcError<()> = apply_outcome(fresh(), Outcome::NotFound(text));
        assert_eq!(err.context.status, 404);
        assert_eq!(err.context.headers.get("grpc-status").unwrap().as_str(), "5");
    }
    for text in [None, Some(String::from("x"))] {
        let err: RpcError<()> = apply_outcome(fresh(), Outcome::Unauthenticated(text));
        assert_eq!(err.context.status, 401);
        assert_eq!(
            err.context.headers.get("grpc-status").unwrap().as_str(),
            "16"
        );
    }
}

#[test]
fn carried_text_replaces_the_default_message() {
    let err: RpcError<()> =
        apply_outcome(fresh(), Outcome::NotFound(Some(String::from("no such user"))));
    assert_eq!(err.message.as_str(), "no such user");
}

#[test]
fn constructors_carry_the_rest_of_the_context_over() {
    // Everything but the status line and the grpc-status header comes
    // through untouched: remaining headers, body, and the inbound slot.
    let mut ctx: ProtoContext<()> = ProtoContext::new(vec![0, 0, 0, 0, 1, 9], ());
    ctx.set("x-request-id", "42");
    ctx.set_body(vec![7, 8]);
    let mut err: RpcError<()> = RpcError::unauthorized_error(ctx);
    assert_eq!(err.context.headers.get("x-request-id").unwrap().as_str(), "42");
    assert_eq!(err.context.body.take_content(), Some(vec![7, 8]));
    assert_eq!(err.context.receive(), Ok(vec![9]));
}

#[test]
fn outcome_table_is_fixed() {
    assert_eq!(Outcome::Success.http_status(), 200);
    assert_eq!(Outcome::Success.proto_status().code(), 0);
    assert_eq!(Outcome::NotFound(None).http_status(), 404);
    assert_eq!(Outcome::NotFound(None).proto_status().code(), 5);
    assert_eq!(Outcome::AlreadyExists(None).http_status(), 409);
    assert_eq!(Outcome::AlreadyExists(None).proto_status().code(), 6);
    assert_eq!(Outcome::InvalidArgument(None).http_status(), 400);
    assert_eq!(Outcome::InvalidArgument(None).proto_status().code(), 3);
    assert_eq!(Outcome::Unauthenticated(None).http_status(), 401);
    assert_eq!(Outcome::Unauthenticated(None).proto_status().code(), 16);
    assert_eq!(Outcome::Internal(None).http_status(), 400);
    assert_eq!(Outcome::Internal(None).proto_status().code(), 3);
}

#[test]
fn proto_status_codes() {
    assert_eq!(ProtoStatus::Success.code(), 0);
    assert_eq!(ProtoStatus::InvalidArgument.code(), 3);
    assert_eq!(ProtoStatus::NotFound.code(), 5);
    assert_eq!(ProtoStatus::AlreadyExists.code(), 6);
    assert_eq!(ProtoStatus::Unauthenticated.code(), 16);
}
