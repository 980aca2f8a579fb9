//! From a rejection to the one error that the client reads.
//!
//! Several causes can describe one malformed request. The order in which
//! they are tested is fixed, from the most specific to the most generic, so
//! that every request gets one stable answer.

use vstd::prelude::*;
use crate::rejection::{CauseKind, CauseView, Rejection};
use crate::rejection::{is_first_of_kind, lemma_first_of_kind_exists};

verus! {

pub const BAD_REQUEST: u16 = 400;

pub const NOT_FOUND: u16 = 404;

pub const METHOD_NOT_ALLOWED: u16 = 405;

pub const LENGTH_REQUIRED: u16 = 411;

pub const PAYLOAD_TOO_LARGE: u16 = 413;

pub const UNSUPPORTED_MEDIA_TYPE: u16 = 415;

pub const TOO_MANY_REQUESTS: u16 = 429;

pub const INTERNAL_SERVER_ERROR: u16 = 500;

/// The only shape in which a failure reaches a client.
#[derive(Clone, Debug, PartialEq, Eq)]
pub struct RestApiError {
    pub status_code: u16,
    pub message: String,
}

/// The mathematical value of a [`RestApiError`].
pub struct RestApiErrorView {
    pub status_code: u16,
    pub message: Seq<char>,
}

impl View for RestApiError {
    type V = RestApiErrorView;

    open spec fn view(&self) -> RestApiErrorView {
        RestApiErrorView { status_code: self.status_code, message: self.message@ }
    }
}

/// The reply that carries an error: its HTTP status is the error's own.
#[derive(Clone, Debug, PartialEq, Eq)]
pub struct ErrorReply {
    pub status_code: u16,
    pub error: RestApiError,
}

impl CauseKind {
    /// The place of a kind in the order of tests, lowest first. A kind that
    /// no rule classifies has none.
    pub open spec fn rank(self) -> Option<nat> {
        match self {
            CauseKind::UnsupportedMediaType => Some(0),
            CauseKind::QueryString => Some(1),
            CauseKind::InvalidJsonRequest => Some(2),
            CauseKind::BodyDeserialize => Some(3),
            CauseKind::TransportUnsupportedMediaType => Some(4),
            CauseKind::UnsupportedEncoding => Some(5),
            CauseKind::CorruptedData => Some(6),
            CauseKind::InvalidQuery => Some(7),
            CauseKind::LengthRequired => Some(8),
            CauseKind::MissingHeader => Some(9),
            CauseKind::InvalidHeader => Some(10),
            CauseKind::PayloadTooLarge => Some(11),
            CauseKind::TooManyRequests => Some(12),
            CauseKind::InvalidArgument => Some(13),
            CauseKind::MethodNotAllowed => Some(14),
            CauseKind::Unclassified => None,
        }
    }

    /// The HTTP status that answers a cause of this kind.
    pub open spec fn status(self) -> u16 {
        match self {
            CauseKind::UnsupportedMediaType => UNSUPPORTED_MEDIA_TYPE,
            CauseKind::QueryString => BAD_REQUEST,
            CauseKind::InvalidJsonRequest => BAD_REQUEST,
            CauseKind::BodyDeserialize => BAD_REQUEST,
            CauseKind::TransportUnsupportedMediaType => UNSUPPORTED_MEDIA_TYPE,
            CauseKind::UnsupportedEncoding => UNSUPPORTED_MEDIA_TYPE,
            CauseKind::CorruptedData => BAD_REQUEST,
            CauseKind::InvalidQuery => BAD_REQUEST,
            CauseKind::LengthRequired => LENGTH_REQUIRED,
            CauseKind::MissingHeader => BAD_REQUEST,
            CauseKind::InvalidHeader => BAD_REQUEST,
            CauseKind::PayloadTooLarge => PAYLOAD_TOO_LARGE,
            CauseKind::TooManyRequests => TOO_MANY_REQUESTS,
            CauseKind::InvalidArgument => BAD_REQUEST,
            CauseKind::MethodNotAllowed => METHOD_NOT_ALLOWED,
            CauseKind::Unclassified => INTERNAL_SERVER_ERROR,
        }
    }
}

/// Whether the cause at position `i` is the one that is answered: no cause
/// has a lower rank, and none of the same rank stands before it.
pub open spec fn wins(causes: Seq<CauseView>, i: int) -> bool {
    &&& 0 <= i < causes.len()
    &&& causes[i].kind.rank() is Some
    &&& forall|j: int|
        0 <= j < causes.len() && (#[trigger] causes[j]).kind.rank() is Some ==> {
            ||| causes[i].kind.rank()->0 < causes[j].kind.rank()->0
            ||| causes[i].kind.rank()->0 == causes[j].kind.rank()->0 && i <= j
        }
}

/// Whether any cause is one that a rule classifies.
pub open spec fn has_classified(causes: Seq<CauseView>) -> bool {
    exists|i: int| 0 <= i < causes.len() && (#[trigger] causes[i]).kind.rank() is Some
}

/// The error that answers a classified cause: the status of its kind and its
/// own text.
pub open spec fn rendered(cause: CauseView) -> RestApiErrorView {
    RestApiErrorView { status_code: cause.kind.status(), message: cause.message }
}

/// The error that answers a rejection, if a rule classifies any of its
/// causes.
pub open spec fn classified(causes: Seq<CauseView>) -> Option<RestApiErrorView> {
    if has_classified(causes) {
        Some(rendered(causes[choose|i: int| wins(causes, i)]))
    } else {
        None
    }
}

/// The error that answers a rejection when nothing can classify it later: a
/// classified cause by its rule, no cause at all as a route that was not
/// found, and anything else as a server error with a fixed text.
pub open spec fn final_error(causes: Seq<CauseView>) -> RestApiErrorView {
    match classified(causes) {
        Some(error) => error,
        None => if causes.len() == 0 {
            RestApiErrorView { status_code: NOT_FOUND, message: "Route not found"@ }
        } else {
            RestApiErrorView { status_code: INTERNAL_SERVER_ERROR, message: "internal server error"@ }
        },
    }
}

/// At most one cause wins.
pub proof fn lemma_winner_is_unique(causes: Seq<CauseView>, i: int, j: int)
    requires
        wins(causes, i),
        wins(causes, j),
    ensures
        i == j,
{
    assert(causes[i].kind.rank() is Some);
    assert(causes[j].kind.rank() is Some);
}

/// The cause that wins is the one whose error answers the rejection.
pub proof fn lemma_winner_is_classified(causes: Seq<CauseView>, i: int)
    requires
        wins(causes, i),
    ensures
        classified(causes) == Some(rendered(causes[i])),
{
    assert(causes[i].kind.rank() is Some);
    let k = choose|k: int| wins(causes, k);
    lemma_winner_is_unique(causes, i, k);
}

/// The first cause of a kind wins when no cause of a lower rank is present.
proof fn lemma_first_of_lowest_rank_wins(causes: Seq<CauseView>, kind: CauseKind, i: int)
    requires
        is_first_of_kind(causes, kind, i),
        kind.rank() is Some,
        forall|j: int|
            0 <= j < causes.len() && (#[trigger] causes[j]).kind.rank() is Some
                ==> kind.rank()->0 <= causes[j].kind.rank()->0,
    ensures
        wins(causes, i),
        classified(causes) == Some(rendered(causes[i])),
{
    assert forall|j: int|
        0 <= j < causes.len() && (#[trigger] causes[j]).kind.rank() is Some implies {
        ||| causes[i].kind.rank()->0 < causes[j].kind.rank()->0
        ||| causes[i].kind.rank()->0 == causes[j].kind.rank()->0 && i <= j
    } by {
        if causes[j].kind.rank()->0 == kind.rank()->0 {
            assert(causes[j].kind == kind);
            if j < i {
                assert(causes[j].kind != kind);
            }
        }
    }
    lemma_winner_is_classified(causes, i);
}

/// Answers the first cause of `kind`, where one is present and no cause of a
/// lower rank is.
fn answer(rejection: &Rejection, kind: CauseKind, status_code: u16) -> (found: Option<RestApiError>)
    requires
        kind.rank() is Some,
        status_code == kind.status(),
        forall|j: int|
            0 <= j < rejection@.len() && (#[trigger] rejection@[j]).kind.rank() is Some
                ==> kind.rank()->0 <= rejection@[j].kind.rank()->0,
    ensures
        match found {
            Some(error) => classified(rejection@) == Some(error@),
            None => forall|j: int|
                0 <= j < rejection@.len() ==> (#[trigger] rejection@[j]).kind != kind,
        },
{
    match rejection.find(kind) {
        Some(i) => {
            proof {
                lemma_first_of_lowest_rank_wins(rejection@, kind, i as int);
            }
            Some(RestApiError { status_code, message: rejection.cause(i).message.clone() })
        },
        None => None,
    }
}

/// Finds the error that answers a rejection.
///
/// The causes are tested in the order of their rank, and the first cause of
/// the first kind that is present is answered with the status of its kind and
/// its own text. A rejection that holds no classified cause is handed back
/// unchanged, for a later stage to judge.
pub fn get_status_with_error(rejection: Rejection) -> (result: Result<RestApiError, Rejection>)
    ensures
        match result {
            Ok(error) => classified(rejection@) == Some(error@),
            Err(back) => classified(rejection@) is None && back == rejection,
        },
{
    if let Some(error) = answer(&rejection, CauseKind::UnsupportedMediaType, UNSUPPORTED_MEDIA_TYPE) {
        Ok(error)
    } else if let Some(error) = answer(&rejection, CauseKind::QueryString, BAD_REQUEST) {
        Ok(error)
    } else if let Some(error) = answer(&rejection, CauseKind::InvalidJsonRequest, BAD_REQUEST) {
        Ok(error)
    } else if let Some(error) = answer(&rejection, CauseKind::BodyDeserialize, BAD_REQUEST) {
        Ok(error)
    } else if let Some(error) = answer(
        &rejection,
        CauseKind::TransportUnsupportedMediaType,
        UNSUPPORTED_MEDIA_TYPE,
    ) {
        Ok(error)
    } else if let Some(error) = answer(&rejection, CauseKind::UnsupportedEncoding, UNSUPPORTED_MEDIA_TYPE) {
        Ok(error)
    } else if let Some(error) = answer(&rejection, CauseKind::CorruptedData, BAD_REQUEST) {
        Ok(error)
    } else if let Some(error) = answer(&rejection, CauseKind::InvalidQuery, BAD_REQUEST) {
        Ok(error)
    } else if let Some(error) = answer(&rejection, CauseKind::LengthRequired, LENGTH_REQUIRED) {
        Ok(error)
    } else if let Some(error) = answer(&rejection, CauseKind::MissingHeader, BAD_REQUEST) {
        Ok(error)
    } else if let Some(error) = answer(&rejection, CauseKind::InvalidHeader, BAD_REQUEST) {
        Ok(error)
    } else if let Some(error) = answer(&rejection, CauseKind::PayloadTooLarge, PAYLOAD_TOO_LARGE) {
        Ok(error)
    } else if let Some(error) = answer(&rejection, CauseKind::TooManyRequests, TOO_MANY_REQUESTS) {
        Ok(error)
    } else if let Some(error) = answer(&rejection, CauseKind::InvalidArgument, BAD_REQUEST) {
        Ok(error)
    } else if let Some(error) = answer(&rejection, CauseKind::MethodNotAllowed, METHOD_NOT_ALLOWED) {
        Ok(error)
    } else {
        assert forall|j: int| 0 <= j < rejection@.len() implies (#[trigger] rejection@[j]).kind.rank()
            is None by {
            let kind = rejection@[j].kind;
            assert(kind != CauseKind::UnsupportedMediaType);
        }
        Err(rejection)
    }
}

/// Answers a rejection where a rule classifies it, and hands it back
/// unchanged where none does, so that an outer stage may still judge it.
pub fn recover_fn(rejection: Rejection) -> (result: Result<ErrorReply, Rejection>)
    ensures
        match result {
            Ok(reply) => classified(rejection@) == Some(reply.error@) && reply.status_code
                == reply.error.status_code,
            Err(back) => classified(rejection@) is None && back == rejection,
        },
{
    match get_status_with_error(rejection) {
        Ok(error) => {
            let status_code = error.status_code;
            Ok(ErrorReply { status_code, error })
        },
        Err(rejection) => Err(rejection),
    }
}

/// The error reply that answers a rejection at the last stage.
///
/// A rejection that no rule classifies is a route that was not found when it
/// holds no cause, and a server error otherwise. The text of a server error
/// is fixed: what the causes say stays inside the server.
pub fn final_reply(rejection: Rejection) -> (reply: ErrorReply)
    ensures
        reply.error@ == final_error(rejection@),
        reply.status_code == reply.error.status_code,
{
    let error = match get_status_with_error(rejection) {
        Ok(error) => error,
        Err(rejection) => {
            if rejection.is_not_found() {
                RestApiError { status_code: NOT_FOUND, message: "Route not found".to_owned() }
            } else {
                RestApiError {
                    status_code: INTERNAL_SERVER_ERROR,
                    message: "internal server error".to_owned(),
                }
            }
        },
    };
    let status_code = error.status_code;
    ErrorReply { status_code, error }
}

/// Answers every rejection: this is the last stage, and it always replies,
/// with [`final_reply`].
pub fn recover_fn_final(rejection: Rejection) -> (result: Result<ErrorReply, Rejection>)
    ensures
        result matches Ok(reply) && reply.error@ == final_error(rejection@) && reply.status_code
            == reply.error.status_code,
{
    Ok(final_reply(rejection))
}

/// A classified cause is present exactly when some cause wins.
pub proof fn lemma_some_cause_wins(causes: Seq<CauseView>)
    ensures
        has_classified(causes) <==> exists|i: int| wins(causes, i),
        has_classified(causes) <==> classified(causes) is Some,
{
    if has_classified(causes) {
        lemma_lowest_rank_from(causes, 0);
    }
    if exists|i: int| wins(causes, i) {
        let i = choose|i: int| wins(causes, i);
        assert(causes[i].kind.rank() is Some);
    }
}

/// Where a classified cause is present and none has a rank below `rank`,
/// some cause wins.
proof fn lemma_lowest_rank_from(causes: Seq<CauseView>, rank: nat)
    requires
        has_classified(causes),
        forall|j: int|
            0 <= j < causes.len() && (#[trigger] causes[j]).kind.rank() is Some ==> rank
                <= causes[j].kind.rank()->0,
    ensures
        exists|i: int| wins(causes, i),
    decreases 15 - rank,
{
    if exists|k: int| 0 <= k < causes.len() && (#[trigger] causes[k]).kind.rank() == Some(rank) {
        let k = choose|k: int| 0 <= k < causes.len() && (#[trigger] causes[k]).kind.rank() == Some(rank);
        let kind = causes[k].kind;
        lemma_first_of_kind_exists(causes, kind, k);
        let i = choose|i: int| 0 <= i <= k && is_first_of_kind(causes, kind, i);
        lemma_first_of_lowest_rank_wins(causes, kind, i);
    } else {
        let c = choose|c: int| 0 <= c < causes.len() && (#[trigger] causes[c]).kind.rank() is Some;
        assert(causes[c].kind.rank()->0 < 15);
        assert(rank < 15);
        lemma_lowest_rank_from(causes, rank + 1);
    }
}

/// A body that fails to parse as JSON is answered as a bad request with the
/// parser's text, whatever else the other filters said of the request, as
/// long as none of them found its media type unsupported or its query string
/// undecodable.
pub proof fn lemma_invalid_json_is_bad_request(causes: Seq<CauseView>, k: int)
    requires
        0 <= k < causes.len(),
        causes[k].kind == CauseKind::InvalidJsonRequest,
        forall|j: int|
            0 <= j < causes.len() ==> (#[trigger] causes[j]).kind != CauseKind::UnsupportedMediaType
                && causes[j].kind != CauseKind::QueryString,
    ensures
        exists|i: int|
            0 <= i <= k && is_first_of_kind(causes, CauseKind::InvalidJsonRequest, i)
                && final_error(causes) == (RestApiErrorView {
                status_code: BAD_REQUEST,
                message: causes[i].message,
            }),
{
    lemma_first_of_kind_exists(causes, CauseKind::InvalidJsonRequest, k);
    let i = choose|i: int| 0 <= i <= k && is_first_of_kind(causes, CauseKind::InvalidJsonRequest, i);
    assert forall|j: int|
        0 <= j < causes.len() && (#[trigger] causes[j]).kind.rank() is Some implies 2
        <= causes[j].kind.rank()->0 by {
        assert(causes[j].kind != CauseKind::UnsupportedMediaType);
    }
    lemma_first_of_lowest_rank_wins(causes, CauseKind::InvalidJsonRequest, i);
}

/// Of two classified causes of different kinds, the one of the higher rank
/// is never the one answered, wherever the two stand.
pub proof fn lemma_higher_rank_never_wins(causes: Seq<CauseView>, i: int, j: int)
    requires
        0 <= i < causes.len(),
        0 <= j < causes.len(),
        causes[i].kind.rank() is Some,
        causes[j].kind.rank() is Some,
        causes[i].kind.rank()->0 < causes[j].kind.rank()->0,
    ensures
        !wins(causes, j),
{
    assert(causes[i].kind.rank() is Some);
}

/// What an unclassified rejection says stays inside the server: the client
/// reads a fixed text, the same for every such rejection.
pub proof fn lemma_unclassified_detail_is_hidden(causes: Seq<CauseView>)
    requires
        causes.len() > 0,
        forall|j: int| 0 <= j < causes.len() ==> (#[trigger] causes[j]).kind == CauseKind::Unclassified,
    ensures
        final_error(causes) == (RestApiErrorView {
            status_code: INTERNAL_SERVER_ERROR,
            message: "internal server error"@,
        }),
{
    if has_classified(causes) {
        let i = choose|i: int| 0 <= i < causes.len() && (#[trigger] causes[i]).kind.rank() is Some;
        assert(causes[i].kind == CauseKind::Unclassified);
    }
}

} // verus!
