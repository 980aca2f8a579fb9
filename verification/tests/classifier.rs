use rest_core::classifier::{
    final_reply, get_status_with_error, recover_fn, recover_fn_final, ErrorReply, RestApiError,
};
use rest_core::rejection::{
    Cause, CauseKind, InternalError, InvalidArgument, InvalidJsonRequest, Rejection, TooManyRequests,
};

fn cause(kind: CauseKind, message: &str) -> Cause {
    Cause::new(kind, message.to_string())
}

fn rejection_of(causes: Vec<Cause>) -> Rejection {
    let mut rejection = Rejection::not_found();
    for cause in causes {
        rejection = rejection.combine(Rejection::because(cause));
    }
    rejection
}

fn classify(kind: CauseKind, message: &str) -> RestApiError {
    get_status_with_error(Rejection::because(cause(kind, message))).unwrap()
}

#[test]
fn unmatched_path_is_route_not_found() {
    let reply = recover_fn_final(Rejection::not_found()).unwrap();
    assert_eq!(
        reply,
        ErrorReply {
            status_code: 404,
            error: RestApiError { status_code: 404, message: "Route not found".to_string() },
        }
    );
}

#[test]
fn every_kind_has_its_status() {
    let expected = [
        (CauseKind::UnsupportedMediaType, 415),
        (CauseKind::QueryString, 400),
        (CauseKind::InvalidJsonRequest, 400),
        (CauseKind::BodyDeserialize, 400),
        (CauseKind::TransportUnsupportedMediaType, 415),
        (CauseKind::UnsupportedEncoding, 415),
        (CauseKind::CorruptedData, 400),
        (CauseKind::InvalidQuery, 400),
        (CauseKind::LengthRequired, 411),
        (CauseKind::MissingHeader, 400),
        (CauseKind::InvalidHeader, 400),
        (CauseKind::PayloadTooLarge, 413),
        (CauseKind::TooManyRequests, 429),
        (CauseKind::InvalidArgument, 400),
        (CauseKind::MethodNotAllowed, 405),
    ];
    for (kind, status) in expected {
        let error = classify(kind, "what went wrong");
        assert_eq!(error.status_code, status, "{:?}", kind);
        assert_eq!(error.message, "what went wrong");
    }
}

#[test]
fn priority_order_is_the_documented_one() {
    let order = [
        CauseKind::UnsupportedMediaType,
        CauseKind::QueryString,
        CauseKind::InvalidJsonRequest,
        CauseKind::BodyDeserialize,
        CauseKind::TransportUnsupportedMediaType,
        CauseKind::UnsupportedEncoding,
        CauseKind::CorruptedData,
        CauseKind::InvalidQuery,
        CauseKind::LengthRequired,
        CauseKind::MissingHeader,
        CauseKind::InvalidHeader,
        CauseKind::PayloadTooLarge,
        CauseKind::TooManyRequests,
        CauseKind::InvalidArgument,
        CauseKind::MethodNotAllowed,
    ];
    for high in 0..order.len() {
        for low in (high + 1)..order.len() {
            let first = rejection_of(vec![cause(order[high], "high"), cause(order[low], "low")]);
            assert_eq!(get_status_with_error(first).unwrap().message, "high");
            let second = rejection_of(vec![cause(order[low], "low"), cause(order[high], "high")]);
            assert_eq!(get_status_with_error(second).unwrap().message, "high");
        }
    }
}

#[test]
fn first_cause_of_a_kind_is_answered() {
    let rejection = rejection_of(vec![
        cause(CauseKind::MethodNotAllowed, "method"),
        cause(CauseKind::InvalidArgument, "first"),
        cause(CauseKind::InvalidArgument, "second"),
    ]);
    let error = get_status_with_error(rejection).unwrap();
    assert_eq!(error, RestApiError { status_code: 400, message: "first".to_string() });
}

#[test]
fn too_many_requests_is_429() {
    assert_eq!(TooManyRequests.message(), "too many requests");
    let error = get_status_with_error(Rejection::because(TooManyRequests.cause())).unwrap();
    assert_eq!(error, RestApiError { status_code: 429, message: "too many requests".to_string() });
}

#[test]
fn invalid_argument_shows_its_text() {
    let failure = InvalidArgument("index id is empty".to_string());
    let error = get_status_with_error(Rejection::because(failure.cause())).unwrap();
    assert_eq!(error, RestApiError { status_code: 400, message: "index id is empty".to_string() });
}

#[test]
fn internal_error_is_not_classified() {
    let failure = InternalError("disk on fire".to_string());
    assert_eq!(failure.message(), "internal error: disk on fire");
    let rejection = Rejection::because(failure.cause());
    let back = get_status_with_error(rejection.clone()).unwrap_err();
    assert_eq!(back, rejection);
    let back = recover_fn(rejection.clone()).unwrap_err();
    assert_eq!(back, rejection);
}

#[test]
fn internal_detail_never_reaches_the_client() {
    let rejection = Rejection::because(InternalError("disk on fire".to_string()).cause());
    let reply = recover_fn_final(rejection).unwrap();
    assert_eq!(
        reply,
        ErrorReply {
            status_code: 500,
            error: RestApiError { status_code: 500, message: "internal server error".to_string() },
        }
    );
}

#[test]
fn not_found_is_handed_on_by_the_inner_stage() {
    let back = recover_fn(Rejection::not_found()).unwrap_err();
    assert!(back.is_not_found());
    assert_eq!(back.len(), 0);
}

#[test]
fn inner_stage_answers_classified_causes() {
    let reply = recover_fn(Rejection::because(cause(CauseKind::PayloadTooLarge, "too large"))).unwrap();
    assert_eq!(reply.status_code, 413);
    assert_eq!(reply.error, RestApiError { status_code: 413, message: "too large".to_string() });
}

#[test]
fn invalid_json_body_is_a_bad_request_with_the_parser_text() {
    let parse_error = serde_json::from_str::<serde_json::Value>("{\"query\": ").unwrap_err();
    let text = parse_error.to_string();
    assert!(!text.is_empty());
    let rejection = rejection_of(vec![
        cause(CauseKind::MethodNotAllowed, "HTTP method not allowed"),
        InvalidJsonRequest(parse_error).cause(),
        cause(CauseKind::InvalidHeader, "Invalid request header \"content-length\""),
        InternalError("noise".to_string()).cause(),
    ]);
    let reply = final_reply(rejection);
    assert_eq!(reply.status_code, 400);
    assert_eq!(reply.error, RestApiError { status_code: 400, message: text });
}

#[test]
fn invalid_json_yields_to_unsupported_media_type_and_query_string() {
    let parse_error = serde_json::from_str::<serde_json::Value>("[1, 2").unwrap_err();
    let rejection = rejection_of(vec![
        InvalidJsonRequest(parse_error).cause(),
        cause(CauseKind::UnsupportedMediaType, "unsupported media type"),
    ]);
    let reply = final_reply(rejection);
    assert_eq!(reply.status_code, 415);
    assert_eq!(reply.error.message, "unsupported media type");
}

#[test]
fn query_string_error_carries_the_parser_text() {
    let parse_error = serde_qs::Error::Custom("unknown field `foo`".to_string());
    let cause = Cause::from_query_string_error(&parse_error);
    assert_eq!(cause.kind, CauseKind::QueryString);
    assert_eq!(cause.message, "unknown field `foo`");
    let error = get_status_with_error(Rejection::because(cause)).unwrap();
    assert_eq!(error, RestApiError { status_code: 400, message: "unknown field `foo`".to_string() });
}

#[test]
fn combine_keeps_order_and_ignores_not_found() {
    let left = Rejection::because(cause(CauseKind::InvalidQuery, "left"));
    let right = Rejection::because(cause(CauseKind::InvalidQuery, "right"));
    let both = left.clone().combine(Rejection::not_found()).combine(right);
    assert_eq!(both.len(), 2);
    assert_eq!(both.cause(0).message, "left");
    assert_eq!(both.cause(1).message, "right");
    assert_eq!(both.find(CauseKind::InvalidQuery), Some(0));
    assert_eq!(both.find(CauseKind::MethodNotAllowed), None);
    assert_eq!(Rejection::not_found().combine(left.clone()), left);
    assert!(Rejection::not_found().combine(Rejection::not_found()).is_not_found());
    assert!(!both.is_not_found());
}
