use rest_core::classifier::{ErrorReply, RestApiError};
use rest_core::rejection::{Cause, CauseKind, InternalError, Rejection};
use rest_core::routes::{
    answered, api_v1_routes, recovered, rest_routes, search_routes, try_in_order, Alternatives,
    ApiV1Route, Reply, RouteGroup, SearchRoute,
};

fn declined(kind: CauseKind, message: &str) -> Rejection {
    Rejection::because(Cause::new(kind, message.to_string()))
}

fn failure(status_code: u16, message: &str) -> ErrorReply {
    ErrorReply { status_code, error: RestApiError { status_code, message: message.to_string() } }
}

#[test]
fn groups_are_tried_in_their_order() {
    assert_eq!(
        rest_routes(),
        vec![
            RouteGroup::ApiV1,
            RouteGroup::ApiDoc,
            RouteGroup::RootRedirect,
            RouteGroup::Ui,
            RouteGroup::HealthCheck,
            RouteGroup::Metrics,
            RouteGroup::Developer,
        ]
    );
}

#[test]
fn api_handlers_are_tried_in_their_order() {
    assert_eq!(
        api_v1_routes(),
        vec![
            ApiV1Route::Elastic,
            ApiV1Route::Cluster,
            ApiV1Route::NodeInfo,
            ApiV1Route::IndexingGet,
            ApiV1Route::Search,
            ApiV1Route::Ingest,
            ApiV1Route::OtlpIngest,
            ApiV1Route::IndexManagement,
            ApiV1Route::DeleteTask,
            ApiV1Route::Jaeger,
            ApiV1Route::IndexTemplate,
        ]
    );
}

#[test]
fn search_handlers_are_tried_in_their_order() {
    assert_eq!(
        search_routes(),
        vec![
            SearchRoute::SearchGet,
            SearchRoute::SearchPost,
            SearchRoute::SearchPlanGet,
            SearchRoute::SearchPlanPost,
            SearchRoute::SearchStream,
        ]
    );
}

#[test]
fn groups_that_recover_by_themselves() {
    let own: Vec<RouteGroup> = rest_routes().into_iter().filter(|group| group.recovers()).collect();
    assert_eq!(own, vec![RouteGroup::ApiDoc, RouteGroup::RootRedirect, RouteGroup::Metrics]);
    let own: Vec<ApiV1Route> = api_v1_routes().into_iter().filter(|route| route.recovers()).collect();
    assert_eq!(own, vec![ApiV1Route::Search]);
}

#[test]
fn first_reply_is_the_answer() {
    let outcomes: Vec<Result<&str, Rejection>> = vec![
        Err(Rejection::not_found()),
        Err(declined(CauseKind::MethodNotAllowed, "HTTP method not allowed")),
        Ok("second handler"),
        Ok("third handler"),
        Err(declined(CauseKind::InvalidQuery, "never tried")),
    ];
    assert_eq!(try_in_order(outcomes), Ok("second handler"));
}

#[test]
fn causes_of_all_filters_are_handed_on_last_first() {
    let outcomes: Vec<Result<(), Rejection>> = vec![
        Err(declined(CauseKind::InvalidQuery, "first filter")),
        Err(Rejection::not_found()),
        Err(declined(CauseKind::InvalidQuery, "third filter")
            .combine(declined(CauseKind::MethodNotAllowed, "third filter too"))),
    ];
    let rejection = try_in_order(outcomes).unwrap_err();
    assert_eq!(rejection.len(), 3);
    assert_eq!(rejection.cause(0).message, "third filter");
    assert_eq!(rejection.cause(1).message, "third filter too");
    assert_eq!(rejection.cause(2).message, "first filter");
}

#[test]
fn no_filter_at_all_is_not_found() {
    let rejection = try_in_order(Vec::<Result<(), Rejection>>::new()).unwrap_err();
    assert!(rejection.is_not_found());
}

#[test]
fn alternatives_name_the_next_filter() {
    let alternatives = Alternatives::new(2);
    assert_eq!(alternatives.pending(), Some(0));
    let alternatives = alternatives.declined(declined(CauseKind::InvalidQuery, "a"));
    assert_eq!(alternatives.pending(), Some(1));
    let alternatives = alternatives.declined(declined(CauseKind::InvalidHeader, "b"));
    assert_eq!(alternatives.pending(), None);
    let rejection = alternatives.into_rejection();
    assert_eq!(rejection.cause(0).message, "b");
    assert_eq!(rejection.cause(1).message, "a");
    assert_eq!(Alternatives::new(0).pending(), None);
    assert!(Alternatives::new(0).into_rejection().is_not_found());
}

#[test]
fn unmatched_path_gets_the_not_found_reply() {
    let outcomes: Vec<Result<Reply<()>, Rejection>> =
        (0..7).map(|_| Err(Rejection::not_found())).collect();
    assert_eq!(answered(try_in_order(outcomes)), Reply::Failed(failure(404, "Route not found")));
}

#[test]
fn handled_requests_pass_unchanged() {
    assert_eq!(answered(Ok(Reply::Handled("hits"))), Reply::Handled("hits"));
    assert_eq!(recovered(Ok(Reply::Handled("hits"))), Ok(Reply::Handled("hits")));
    let earlier = Reply::<()>::Failed(failure(400, "earlier"));
    assert_eq!(answered(Ok(Reply::<()>::Failed(failure(400, "earlier")))), earlier);
}

#[test]
fn group_recovery_answers_classified_rejections_only() {
    let classified: Result<Reply<()>, Rejection> =
        Err(declined(CauseKind::MethodNotAllowed, "HTTP method not allowed"));
    assert_eq!(recovered(classified), Ok(Reply::Failed(failure(405, "HTTP method not allowed"))));

    let unmatched: Result<Reply<()>, Rejection> = Err(Rejection::not_found());
    assert_eq!(recovered(unmatched), Err(Rejection::not_found()));

    let unknown = Rejection::because(InternalError("oops".to_string()).cause());
    let outcome: Result<Reply<()>, Rejection> = Err(unknown.clone());
    assert_eq!(recovered(outcome), Err(unknown));
}

#[test]
fn recovered_group_stops_the_filters_that_follow() {
    let search: Result<Reply<&str>, Rejection> =
        recovered(Err(declined(CauseKind::InvalidArgument, "bad index pattern")));
    let outcomes = vec![Err(Rejection::not_found()), search, Ok(Reply::Handled("ingest"))];
    assert_eq!(answered(try_in_order(outcomes)), Reply::Failed(failure(400, "bad index pattern")));
}

#[test]
fn last_stage_answers_everything() {
    let unknown: Result<Reply<()>, Rejection> =
        Err(Rejection::because(InternalError("oops".to_string()).cause()));
    assert_eq!(answered(unknown), Reply::Failed(failure(500, "internal server error")));
    let classified: Result<Reply<()>, Rejection> = Err(declined(CauseKind::LengthRequired, "length"));
    assert_eq!(answered(classified), Reply::Failed(failure(411, "length")));
}
