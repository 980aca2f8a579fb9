//! Failure causes and their accumulation across a chain of route filters.

use vstd::prelude::*;

verus! {

/// `serde_json::Error`: a JSON syntax or data error, as the JSON parser
/// reports it. Nothing inside it is looked at.
#[verifier::external_type_specification]
#[verifier::external_body]
pub struct ExJsonError(serde_json::Error);

/// `serde_qs::Error`: a query-string decoding error, as the query-string
/// parser reports it. Nothing inside it is looked at.
#[verifier::external_type_specification]
#[verifier::external_body]
pub struct ExQueryStringError(serde_qs::Error);

/// The reason a route filter declined a request, without its detail.
#[derive(Clone, Copy, Debug, PartialEq, Eq, Structural)]
pub enum CauseKind {
    /// The body format named by the request is not one the API speaks.
    UnsupportedMediaType,
    /// The query string could not be decoded.
    QueryString,
    /// The request body is not the JSON the handler expects.
    InvalidJsonRequest,
    /// The request body could not be deserialized.
    BodyDeserialize,
    /// The transport layer found the content type unsuitable for the body.
    TransportUnsupportedMediaType,
    /// The content encoding of the body is not supported.
    UnsupportedEncoding,
    /// The body could not be decoded, for instance decompressed.
    CorruptedData,
    /// The query parameters are invalid.
    InvalidQuery,
    /// A `Content-Length` header is required and absent.
    LengthRequired,
    /// A required header is absent.
    MissingHeader,
    /// A header holds an invalid value.
    InvalidHeader,
    /// The payload is larger than the configured limit.
    PayloadTooLarge,
    /// The caller exceeded its request budget.
    TooManyRequests,
    /// A handler found an argument of the path or the body invalid.
    InvalidArgument,
    /// The path matched a route, the method did not.
    MethodNotAllowed,
    /// Any other cause. Its detail is never shown to a client.
    Unclassified,
}

/// One reason for which a filter declined a request, with the text that
/// describes it.
#[derive(Clone, Debug, PartialEq, Eq)]
pub struct Cause {
    pub kind: CauseKind,
    pub message: String,
}

/// The mathematical value of a [`Cause`].
pub struct CauseView {
    pub kind: CauseKind,
    pub message: Seq<char>,
}

impl View for Cause {
    type V = CauseView;

    open spec fn view(&self) -> CauseView {
        CauseView { kind: self.kind, message: self.message@ }
    }
}

impl Cause {
    /// A cause of the given kind, described by `message`.
    pub fn new(kind: CauseKind, message: String) -> (cause: Cause)
        ensures
            cause@ == (CauseView { kind, message: message@ }),
    {
        Cause { kind, message }
    }

    /// The cause raised when a query string fails to decode. Its text is the
    /// parser's own description of the failure.
    pub fn from_query_string_error(error: &serde_qs::Error) -> (cause: Cause)
        ensures
            cause@.kind == CauseKind::QueryString,
            vstd::string::to_string_from_display_ensures::<serde_qs::Error>(error, cause.message),
    {
        Cause { kind: CauseKind::QueryString, message: error.to_string() }
    }
}

/// The request body was not the JSON that the handler expects.
#[derive(Debug)]
pub struct InvalidJsonRequest(pub serde_json::Error);

impl InvalidJsonRequest {
    /// This failure as a cause. Its text is the parser's own description of
    /// the failure.
    pub fn cause(&self) -> (cause: Cause)
        ensures
            cause@.kind == CauseKind::InvalidJsonRequest,
            vstd::string::to_string_from_display_ensures::<serde_json::Error>(&self.0, cause.message),
    {
        Cause { kind: CauseKind::InvalidJsonRequest, message: self.0.to_string() }
    }
}

/// The caller exceeded its request budget.
#[derive(Debug)]
pub struct TooManyRequests;

impl TooManyRequests {
    /// The text that describes this failure.
    pub fn message(&self) -> (text: String)
        ensures
            text@ == "too many requests"@,
    {
        "too many requests".to_owned()
    }

    /// This failure as a cause.
    pub fn cause(&self) -> (cause: Cause)
        ensures
            cause@ == (CauseView {
                kind: CauseKind::TooManyRequests,
                message: "too many requests"@,
            }),
    {
        Cause { kind: CauseKind::TooManyRequests, message: self.message() }
    }
}

/// A failure inside the server, with its detail.
#[derive(Debug)]
pub struct InternalError(pub String);

impl InternalError {
    /// The text that describes this failure: the detail behind a fixed
    /// prefix.
    pub fn message(&self) -> (text: String)
        ensures
            text@ == "internal error: "@ + self.0@,
    {
        "internal error: ".to_owned().concat(self.0.as_str())
    }

    /// This failure as a cause. No rule classifies it, so a client never
    /// reads its detail.
    pub fn cause(&self) -> (cause: Cause)
        ensures
            cause@ == (CauseView {
                kind: CauseKind::Unclassified,
                message: "internal error: "@ + self.0@,
            }),
    {
        Cause { kind: CauseKind::Unclassified, message: self.message() }
    }
}

/// A handler found an argument of the path or of the body invalid.
#[derive(Debug)]
pub struct InvalidArgument(pub String);

impl InvalidArgument {
    /// This failure as a cause, described by the text it carries.
    pub fn cause(&self) -> (cause: Cause)
        ensures
            cause@ == (CauseView { kind: CauseKind::InvalidArgument, message: self.0@ }),
    {
        Cause { kind: CauseKind::InvalidArgument, message: self.0.clone() }
    }
}

/// What a chain of route filters hands on when none of them produced a reply:
/// the causes of every filter that declined, in the order in which a search
/// meets them. A rejection without any cause means that no route matched.
#[derive(Clone, Debug, PartialEq, Eq)]
pub struct Rejection {
    causes: Vec<Cause>,
}

impl View for Rejection {
    type V = Seq<CauseView>;

    closed spec fn view(&self) -> Seq<CauseView> {
        Seq::new(self.causes@.len(), |i: int| self.causes@[i]@)
    }
}

/// Whether position `i` holds the first cause of the given kind.
pub open spec fn is_first_of_kind(causes: Seq<CauseView>, kind: CauseKind, i: int) -> bool {
    &&& 0 <= i < causes.len()
    &&& causes[i].kind == kind
    &&& forall|j: int| 0 <= j < i ==> causes[j].kind != kind
}

impl Rejection {
    /// The rejection of a request that no route matched.
    pub fn not_found() -> (rejection: Rejection)
        ensures
            rejection@ == Seq::<CauseView>::empty(),
    {
        Rejection { causes: Vec::new() }
    }

    /// The rejection of a request for a single cause.
    pub fn because(cause: Cause) -> (rejection: Rejection)
        ensures
            rejection@ == seq![cause@],
    {
        let mut causes: Vec<Cause> = Vec::new();
        causes.push(cause);
        Rejection { causes }
    }

    /// The causes of `self` followed by those of `other`. A rejection
    /// without causes changes nothing on either side.
    pub fn combine(self, other: Rejection) -> (rejection: Rejection)
        ensures
            rejection@ == self@ + other@,
    {
        let mut causes = self.causes;
        let mut rest = other.causes;
        causes.append(&mut rest);
        Rejection { causes }
    }

    /// Whether no route matched: the rejection holds no cause.
    pub fn is_not_found(&self) -> (none: bool)
        ensures
            none == (self@.len() == 0),
    {
        self.causes.len() == 0
    }

    /// The number of causes.
    pub fn len(&self) -> (n: usize)
        ensures
            n == self@.len(),
    {
        self.causes.len()
    }

    /// The cause at position `i`.
    pub fn cause(&self, i: usize) -> (cause: &Cause)
        requires
            i < self@.len(),
        ensures
            cause@ == self@[i as int],
    {
        &self.causes[i]
    }

    /// Searches the causes for the first one of the given kind.
    pub fn find(&self, kind: CauseKind) -> (found: Option<usize>)
        ensures
            match found {
                Some(i) => is_first_of_kind(self@, kind, i as int),
                None => forall|j: int| 0 <= j < self@.len() ==> self@[j].kind != kind,
            },
    {
        let mut i: usize = 0;
        while i < self.causes.len()
            invariant
                i <= self.causes.len(),
                forall|j: int| 0 <= j < i ==> self@[j].kind != kind,
            decreases self.causes.len() - i,
        {
            if self.causes[i].kind == kind {
                return Some(i);
            }
            i += 1;
        }
        None
    }
}

/// At most one position holds the first cause of a kind.
pub proof fn lemma_first_of_kind_is_unique(causes: Seq<CauseView>, kind: CauseKind, i: int, j: int)
    requires
        is_first_of_kind(causes, kind, i),
        is_first_of_kind(causes, kind, j),
    ensures
        i == j,
{
    if i < j {
        assert(causes[i].kind != kind);
    } else if j < i {
        assert(causes[j].kind != kind);
    }
}

/// Where a cause of a kind is present, one of them is the first.
pub proof fn lemma_first_of_kind_exists(causes: Seq<CauseView>, kind: CauseKind, k: int)
    requires
        0 <= k < causes.len(),
        causes[k].kind == kind,
    ensures
        exists|i: int| 0 <= i <= k && is_first_of_kind(causes, kind, i),
    decreases k,
{
    if exists|j: int| 0 <= j < k && causes[j].kind == kind {
        let j = choose|j: int| 0 <= j < k && causes[j].kind == kind;
        lemma_first_of_kind_exists(causes, kind, j);
    } else {
        assert(is_first_of_kind(causes, kind, k));
    }
}

} // verus!
