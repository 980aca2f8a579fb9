//! The order in which route filters are tried, and what becomes of a request
//! that several of them decline.
//!
//! A filter either replies or rejects. Filters are tried in a fixed order;
//! the first reply is the answer. When all decline, their causes are handed
//! on together, those of the filter tried last in front.

use vstd::prelude::*;
use crate::classifier::{classified, final_error, final_reply, recover_fn, ErrorReply};
use crate::classifier::{lemma_invalid_json_is_bad_request, RestApiErrorView, BAD_REQUEST, NOT_FOUND};
use crate::rejection::{CauseKind, CauseView, Rejection};

verus! {

/// The groups of routes of the server, in the order in which a request is
/// offered to them.
#[derive(Clone, Copy, Debug, PartialEq, Eq, Structural)]
pub enum RouteGroup {
    /// Everything under the versioned API prefix.
    ApiV1,
    /// The API description document.
    ApiDoc,
    /// The redirect from the root to the user interface.
    RootRedirect,
    /// The assets of the user interface.
    Ui,
    /// The health checks.
    HealthCheck,
    /// The metrics page.
    Metrics,
    /// The developer routes.
    Developer,
}

/// The handlers under the versioned API prefix, in the order in which a
/// request is offered to them.
#[derive(Clone, Copy, Debug, PartialEq, Eq, Structural)]
pub enum ApiV1Route {
    Elastic,
    Cluster,
    NodeInfo,
    IndexingGet,
    Search,
    Ingest,
    OtlpIngest,
    IndexManagement,
    DeleteTask,
    Jaeger,
    IndexTemplate,
}

/// The search handlers, in the order in which a request is offered to them.
#[derive(Clone, Copy, Debug, PartialEq, Eq, Structural)]
pub enum SearchRoute {
    SearchGet,
    SearchPost,
    SearchPlanGet,
    SearchPlanPost,
    SearchStream,
}

impl RouteGroup {
    /// Whether the group answers its own classified rejections, instead of
    /// leaving them to the last stage.
    pub fn recovers(self) -> (own: bool)
        ensures
            own == (self == RouteGroup::ApiDoc || self == RouteGroup::RootRedirect || self
                == RouteGroup::Metrics),
    {
        match self {
            RouteGroup::ApiDoc | RouteGroup::RootRedirect | RouteGroup::Metrics => true,
            _ => false,
        }
    }
}

impl ApiV1Route {
    /// Whether the handler answers its own classified rejections. Only the
    /// search handlers do, as one group.
    pub fn recovers(self) -> (own: bool)
        ensures
            own == (self == ApiV1Route::Search),
    {
        match self {
            ApiV1Route::Search => true,
            _ => false,
        }
    }
}

/// The groups of routes, outermost order.
pub fn rest_routes() -> (groups: Vec<RouteGroup>)
    ensures
        groups@ == seq![
            RouteGroup::ApiV1,
            RouteGroup::ApiDoc,
            RouteGroup::RootRedirect,
            RouteGroup::Ui,
            RouteGroup::HealthCheck,
            RouteGroup::Metrics,
            RouteGroup::Developer,
        ],
{
    let mut groups: Vec<RouteGroup> = Vec::new();
    groups.push(RouteGroup::ApiV1);
    groups.push(RouteGroup::ApiDoc);
    groups.push(RouteGroup::RootRedirect);
    groups.push(RouteGroup::Ui);
    groups.push(RouteGroup::HealthCheck);
    groups.push(RouteGroup::Metrics);
    groups.push(RouteGroup::Developer);
    groups
}

/// The handlers under the versioned API prefix.
pub fn api_v1_routes() -> (routes: Vec<ApiV1Route>)
    ensures
        routes@ == seq![
            ApiV1Route::Elastic,
            ApiV1Route::Cluster,
            ApiV1Route::NodeInfo,
            ApiV1Route::IndexingGet,
            ApiV1Route::Search,
            ApiV1Route::Ingest,
            ApiV1Route::OtlpIngest,
            ApiV1Route::IndexManagement,
            ApiV1Route::DeleteTask,
            ApiV1Route::Jaeger,
            ApiV1Route::IndexTemplate,
        ],
{
    let mut routes: Vec<ApiV1Route> = Vec::new();
    routes.push(ApiV1Route::Elastic);
    routes.push(ApiV1Route::Cluster);
    routes.push(ApiV1Route::NodeInfo);
    routes.push(ApiV1Route::IndexingGet);
    routes.push(ApiV1Route::Search);
    routes.push(ApiV1Route::Ingest);
    routes.push(ApiV1Route::OtlpIngest);
    routes.push(ApiV1Route::IndexManagement);
    routes.push(ApiV1Route::DeleteTask);
    routes.push(ApiV1Route::Jaeger);
    routes.push(ApiV1Route::IndexTemplate);
    routes
}

/// The search handlers.
pub fn search_routes() -> (routes: Vec<SearchRoute>)
    ensures
        routes@ == seq![
            SearchRoute::SearchGet,
            SearchRoute::SearchPost,
            SearchRoute::SearchPlanGet,
            SearchRoute::SearchPlanPost,
            SearchRoute::SearchStream,
        ],
{
    let mut routes: Vec<SearchRoute> = Vec::new();
    routes.push(SearchRoute::SearchGet);
    routes.push(SearchRoute::SearchPost);
    routes.push(SearchRoute::SearchPlanGet);
    routes.push(SearchRoute::SearchPlanPost);
    routes.push(SearchRoute::SearchStream);
    routes
}

/// What a client receives: the reply of a handler, or an error.
#[derive(Debug, PartialEq, Eq)]
pub enum Reply<R> {
    Handled(R),
    Failed(ErrorReply),
}

/// The causes of the filters that declined among `outcomes`, those of the
/// later filters in front.
pub open spec fn all_causes<R>(outcomes: Seq<Result<R, Rejection>>) -> Seq<CauseView>
    decreases outcomes.len(),
{
    if outcomes.len() == 0 {
        Seq::empty()
    } else {
        match outcomes.last() {
            Err(rejection) => rejection@ + all_causes(outcomes.drop_last()),
            Ok(_) => all_causes(outcomes.drop_last()),
        }
    }
}

/// Whether the filter at position `i` is the first that replied.
pub open spec fn is_first_reply<R>(outcomes: Seq<Result<R, Rejection>>, i: int) -> bool {
    &&& 0 <= i < outcomes.len()
    &&& outcomes[i] is Ok
    &&& forall|j: int| 0 <= j < i ==> outcomes[j] is Err
}

/// The filters of one alternative that have declined so far.
///
/// The caller tries the filter that [`Alternatives::pending`] names and
/// reports a rejection with [`Alternatives::declined`]; a reply ends the
/// alternative and needs no report.
#[derive(Debug)]
pub struct Alternatives {
    count: usize,
    tried: usize,
    rejection: Rejection,
}

impl Alternatives {
    /// The number of filters of the alternative.
    pub closed spec fn count(&self) -> nat {
        self.count as nat
    }

    /// The number of filters that have declined.
    pub closed spec fn tried(&self) -> nat {
        self.tried as nat
    }

    /// The causes gathered so far.
    pub closed spec fn causes(&self) -> Seq<CauseView> {
        self.rejection@
    }

    /// The filters decline one by one, never more of them than there are.
    #[verifier::type_invariant]
    closed spec fn well_formed(&self) -> bool {
        self.tried <= self.count
    }

    /// An alternative of `count` filters, none of them tried yet.
    pub fn new(count: usize) -> (fresh: Alternatives)
        ensures
            fresh.count() == count,
            fresh.tried() == 0,
            fresh.causes() == Seq::<CauseView>::empty(),
    {
        Alternatives { count, tried: 0, rejection: Rejection::not_found() }
    }

    /// The position of the filter to try next, or nothing when all have
    /// declined.
    pub fn pending(&self) -> (next: Option<usize>)
        ensures
            self.tried() <= self.count(),
            next == if self.tried() < self.count() {
                Some(self.tried() as usize)
            } else {
                None
            },
    {
        proof {
            use_type_invariant(self);
        }
        if self.tried < self.count {
            Some(self.tried)
        } else {
            None
        }
    }

    /// Takes in the rejection of the pending filter. Its causes come in
    /// front of those gathered before.
    pub fn declined(self, rejection: Rejection) -> (after: Alternatives)
        requires
            self.tried() < self.count(),
        ensures
            after.count() == self.count(),
            after.tried() == self.tried() + 1,
            after.causes() == rejection@ + self.causes(),
    {
        Alternatives {
            count: self.count,
            tried: self.tried + 1,
            rejection: rejection.combine(self.rejection),
        }
    }

    /// The rejection of the alternative as a whole.
    pub fn into_rejection(self) -> (rejection: Rejection)
        ensures
            rejection@ == self.causes(),
    {
        self.rejection
    }
}

/// The answer of an alternative whose filters gave `outcomes`: the first
/// reply, or else the causes of all of them.
pub fn try_in_order<R>(outcomes: Vec<Result<R, Rejection>>) -> (result: Result<R, Rejection>)
    ensures
        match result {
            Ok(reply) => exists|i: int|
                is_first_reply(outcomes@, i) && outcomes@[i] == Ok::<R, Rejection>(reply),
            Err(rejection) => rejection@ == all_causes(outcomes@) && forall|i: int|
                0 <= i < outcomes@.len() ==> outcomes@[i] is Err,
        },
{
    let mut alternatives = Alternatives::new(outcomes.len());
    for outcome in iter: outcomes
        invariant
            alternatives.count() == outcomes@.len(),
            alternatives.tried() == iter.index(),
            iter.seq() == outcomes@,
            alternatives.causes() == all_causes(outcomes@.take(iter.index() as int)),
            forall|j: int| 0 <= j < iter.index() ==> outcomes@[j] is Err,
    {
        let ghost i = iter.index() as int;
        match outcome {
            Ok(reply) => {
                assert(is_first_reply(outcomes@, i));
                return Ok(reply);
            },
            Err(rejection) => {
                proof {
                    let upto = outcomes@.take(i + 1);
                    assert(upto.drop_last() == outcomes@.take(i));
                    assert(upto.last() == outcomes@[i]);
                }
                alternatives = alternatives.declined(rejection);
            },
        }
    }
    assert(outcomes@.take(outcomes@.len() as int) == outcomes@);
    Err(alternatives.into_rejection())
}

/// The outcome of a group that answers its own classified rejections: a
/// reply stays, a rejection that a rule classifies becomes an error reply and
/// so no longer reaches the filters that follow, and any other rejection
/// stays a rejection.
pub fn recovered<R>(outcome: Result<Reply<R>, Rejection>) -> (result: Result<Reply<R>, Rejection>)
    ensures
        match outcome {
            Ok(reply) => result == Ok::<Reply<R>, Rejection>(reply),
            Err(rejection) => match result {
                Ok(reply) => reply matches Reply::Failed(failure) && classified(rejection@) == Some(
                    failure.error@,
                ) && failure.status_code == failure.error.status_code,
                Err(back) => classified(rejection@) is None && back == rejection,
            },
        },
{
    match outcome {
        Ok(reply) => Ok(reply),
        Err(rejection) => match recover_fn(rejection) {
            Ok(failure) => Ok(Reply::Failed(failure)),
            Err(rejection) => Err(rejection),
        },
    }
}

/// The reply that leaves the server: that of the handler, or the error that
/// answers the rejection. No request is left without a reply.
pub fn answered<R>(outcome: Result<Reply<R>, Rejection>) -> (reply: Reply<R>)
    ensures
        match outcome {
            Ok(handled) => reply == handled,
            Err(rejection) => reply matches Reply::Failed(failure) && failure.error@ == final_error(
                rejection@,
            ) && failure.status_code == failure.error.status_code,
        },
{
    match outcome {
        Ok(reply) => reply,
        Err(rejection) => Reply::Failed(final_reply(rejection)),
    }
}

/// Every cause of every filter that declined is among the causes handed on.
pub proof fn lemma_causes_are_kept<R>(outcomes: Seq<Result<R, Rejection>>, i: int, k: int)
    requires
        0 <= i < outcomes.len(),
        outcomes[i] is Err,
        0 <= k < outcomes[i]->Err_0@.len(),
    ensures
        exists|m: int|
            0 <= m < all_causes(outcomes).len() && #[trigger] all_causes(outcomes)[m]
                == outcomes[i]->Err_0@[k],
    decreases outcomes.len(),
{
    let rest = outcomes.drop_last();
    let cause = outcomes[i]->Err_0@[k];
    if i == outcomes.len() - 1 {
        assert(all_causes(outcomes)[k] == cause);
    } else {
        assert(rest[i] == outcomes[i]);
        lemma_causes_are_kept(rest, i, k);
        let m = choose|m: int| 0 <= m < all_causes(rest).len() && #[trigger] all_causes(rest)[m] == cause;
        match outcomes.last() {
            Err(rejection) => {
                assert(all_causes(outcomes)[rejection@.len() + m] == cause);
            },
            Ok(_) => {
                assert(all_causes(outcomes)[m] == cause);
            },
        }
    }
}

/// Every cause handed on is a cause of some filter that declined.
pub proof fn lemma_causes_come_from_filters<R>(outcomes: Seq<Result<R, Rejection>>, m: int)
    requires
        0 <= m < all_causes(outcomes).len(),
    ensures
        exists|i: int, k: int|
            0 <= i < outcomes.len() && outcomes[i] is Err && 0 <= k < outcomes[i]->Err_0@.len()
                && #[trigger] outcomes[i]->Err_0@[k] == all_causes(outcomes)[m],
    decreases outcomes.len(),
{
    let rest = outcomes.drop_last();
    let last = outcomes.len() - 1;
    match outcomes.last() {
        Err(rejection) => {
            if m < rejection@.len() {
                assert(outcomes[last]->Err_0@[m] == all_causes(outcomes)[m]);
            } else {
                lemma_causes_come_from_filters(rest, m - rejection@.len());
                let (i, k) = choose|i: int, k: int|
                    0 <= i < rest.len() && rest[i] is Err && 0 <= k < rest[i]->Err_0@.len()
                        && #[trigger] rest[i]->Err_0@[k] == all_causes(rest)[m - rejection@.len()];
                assert(outcomes[i]->Err_0@[k] == all_causes(outcomes)[m]);
            }
        },
        Ok(_) => {
            lemma_causes_come_from_filters(rest, m);
            let (i, k) = choose|i: int, k: int|
                0 <= i < rest.len() && rest[i] is Err && 0 <= k < rest[i]->Err_0@.len()
                    && #[trigger] rest[i]->Err_0@[k] == all_causes(rest)[m];
            assert(outcomes[i]->Err_0@[k] == all_causes(outcomes)[m]);
        },
    }
}

/// A request that every filter declines without a cause, because its path
/// matches none of them, is answered with "Route not found".
pub proof fn lemma_unmatched_path_is_not_found<R>(outcomes: Seq<Result<R, Rejection>>)
    requires
        forall|i: int|
            0 <= i < outcomes.len() ==> (#[trigger] outcomes[i]) is Err && outcomes[i]->Err_0@.len()
                == 0,
    ensures
        all_causes(outcomes) == Seq::<CauseView>::empty(),
        final_error(all_causes(outcomes)) == (RestApiErrorView {
            status_code: NOT_FOUND,
            message: "Route not found"@,
        }),
    decreases outcomes.len(),
{
    if outcomes.len() > 0 {
        let rest = outcomes.drop_last();
        assert forall|i: int| 0 <= i < rest.len() implies (#[trigger] rest[i]) is Err
            && rest[i]->Err_0@.len() == 0 by {
            assert(rest[i] == outcomes[i]);
        }
        lemma_unmatched_path_is_not_found(rest);
        assert(outcomes.last() == outcomes[outcomes.len() - 1]);
    }
}

/// When one filter found that the body is not valid JSON and every filter
/// declined, the request is answered as a bad request, whatever the other
/// filters made of it, as long as none of them found the media type
/// unsupported or the query string undecodable.
pub proof fn lemma_invalid_json_survives_other_filters<R>(
    outcomes: Seq<Result<R, Rejection>>,
    i: int,
    k: int,
)
    requires
        forall|j: int| 0 <= j < outcomes.len() ==> (#[trigger] outcomes[j]) is Err,
        0 <= i < outcomes.len(),
        0 <= k < outcomes[i]->Err_0@.len(),
        outcomes[i]->Err_0@[k].kind == CauseKind::InvalidJsonRequest,
        forall|j: int, l: int|
            0 <= j < outcomes.len() && 0 <= l < outcomes[j]->Err_0@.len() ==> (
            #[trigger] outcomes[j]->Err_0@[l]).kind != CauseKind::UnsupportedMediaType
                && outcomes[j]->Err_0@[l].kind != CauseKind::QueryString,
    ensures
        final_error(all_causes(outcomes)).status_code == BAD_REQUEST,
        exists|m: int|
            0 <= m < all_causes(outcomes).len() && (#[trigger] all_causes(outcomes)[m]).kind
                == CauseKind::InvalidJsonRequest && final_error(all_causes(outcomes)).message
                == all_causes(outcomes)[m].message,
{
    let causes = all_causes(outcomes);
    lemma_causes_are_kept(outcomes, i, k);
    let m = choose|m: int| 0 <= m < causes.len() && #[trigger] causes[m] == outcomes[i]->Err_0@[k];
    assert forall|n: int| 0 <= n < causes.len() implies (#[trigger] causes[n]).kind
        != CauseKind::UnsupportedMediaType && causes[n].kind != CauseKind::QueryString by {
        lemma_causes_come_from_filters(outcomes, n);
    }
    lemma_invalid_json_is_bad_request(causes, m);
}

} // verus!
