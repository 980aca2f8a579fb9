//! Cross-origin rules: which origins a response names as allowed, and which
//! methods a preflight advertises.

use vstd::prelude::*;
use tower_http::cors::{Any, CorsLayer};
use warp::http::{HeaderValue, Method};

verus! {

/// `CorsLayer` of tower-http: the layer that applies a cross-origin rule to
/// the requests of a service. Nothing inside it is looked at.
#[verifier::external_type_specification]
#[verifier::external_body]
pub struct ExCorsLayer(CorsLayer);

/// The cross-origin rule that a list of configured origins stands for.
#[derive(Clone, Debug, PartialEq, Eq)]
pub enum CorsPolicy {
    /// No origin is configured: no response names an allowed origin.
    Disabled,
    /// The wildcard is configured: every response allows any origin.
    AllowAny,
    /// These origins are allowed, and no other.
    AllowList(Vec<String>),
}

/// The mathematical value of a [`CorsPolicy`].
pub enum CorsPolicyView {
    Disabled,
    AllowAny,
    AllowList(Seq<Seq<char>>),
}

/// The texts of a sequence of strings.
pub open spec fn texts(strings: Seq<String>) -> Seq<Seq<char>> {
    Seq::new(strings.len(), |i: int| strings[i]@)
}

impl View for CorsPolicy {
    type V = CorsPolicyView;

    open spec fn view(&self) -> CorsPolicyView {
        match self {
            CorsPolicy::Disabled => CorsPolicyView::Disabled,
            CorsPolicy::AllowAny => CorsPolicyView::AllowAny,
            CorsPolicy::AllowList(origins) => CorsPolicyView::AllowList(texts(origins@)),
        }
    }
}

/// Whether a character may stand in the value of a header: a tab, or
/// anything from the space on but the delete character.
pub open spec fn is_header_char(c: char) -> bool {
    c == '\t' || (' ' <= c && c != '\x7f')
}

/// Whether a text can be the value of a header.
pub open spec fn is_header_value(text: Seq<char>) -> bool {
    forall|i: int| 0 <= i < text.len() ==> is_header_char(#[trigger] text[i])
}

/// Whether the wildcard is among the origins.
pub open spec fn holds_wildcard(origins: Seq<Seq<char>>) -> bool {
    exists|i: int| 0 <= i < origins.len() && #[trigger] origins[i] == "*"@
}

/// Whether every origin can be the value of a header.
pub open spec fn all_header_values(origins: Seq<Seq<char>>) -> bool {
    forall|i: int| 0 <= i < origins.len() ==> is_header_value(#[trigger] origins[i])
}

/// The rule that a list of configured origins stands for: none for an empty
/// list, any origin where the wildcard is listed, and else the list itself.
pub open spec fn policy_of(origins: Seq<Seq<char>>) -> CorsPolicyView {
    if origins.len() == 0 {
        CorsPolicyView::Disabled
    } else if holds_wildcard(origins) {
        CorsPolicyView::AllowAny
    } else {
        CorsPolicyView::AllowList(origins)
    }
}

/// The value of `Access-Control-Allow-Origin` on the response to a request
/// that names `origin` as its own, if the response carries that header.
pub open spec fn allowed_origin(policy: CorsPolicyView, origin: Option<Seq<char>>) -> Option<Seq<char>> {
    match policy {
        CorsPolicyView::Disabled => None,
        CorsPolicyView::AllowAny => Some("*"@),
        CorsPolicyView::AllowList(origins) => match origin {
            Some(origin) => if origins.contains(origin) {
                Some(origin)
            } else {
                None
            },
            None => None,
        },
    }
}

/// The methods that every preflight answer advertises.
pub open spec fn allowed_methods() -> Seq<char> {
    "GET,POST,PUT,DELETE,OPTIONS"@
}

/// The methods that are allowed, one by one.
pub open spec fn method_names() -> Seq<Seq<char>> {
    seq!["GET"@, "POST"@, "PUT"@, "DELETE"@, "OPTIONS"@]
}

/// Whether a text is the name of a method as this server writes them: one
/// or more upper-case letters.
pub open spec fn is_method_name(text: Seq<char>) -> bool {
    text.len() > 0 && forall|i: int| 0 <= i < text.len() ==> 'A' <= #[trigger] text[i] <= 'Z'
}

/// Texts in a row, with a comma between each two.
pub open spec fn comma_separated(parts: Seq<Seq<char>>) -> Seq<char>
    decreases parts.len(),
{
    if parts.len() == 0 {
        Seq::empty()
    } else if parts.len() == 1 {
        parts[0]
    } else {
        comma_separated(parts.drop_last()) + seq![','] + parts.last()
    }
}

/// The value of `Access-Control-Allow-Methods` on a response, if it carries
/// that header: the fixed list on the answer to a preflight, under every
/// rule, and nothing on any other response.
pub open spec fn advertised_methods(policy: CorsPolicyView, preflight: bool) -> Option<Seq<char>> {
    if preflight {
        Some(allowed_methods())
    } else {
        None
    }
}

/// The text of the origin that a request names, if it names one.
pub open spec fn origin_text(origin: Option<&str>) -> Option<Seq<char>> {
    match origin {
        Some(origin) => Some(origin@),
        None => None,
    }
}

/// The text of a header value, if there is one.
pub open spec fn value_text(value: Option<String>) -> Option<Seq<char>> {
    match value {
        Some(value) => Some(value@),
        None => None,
    }
}

/// `HeaderValue::from_str` of the `http` crate, asked only whether it
/// accepts the text. It walks the bytes of the text and refuses the first
/// one below the space, but for the tab, and the delete byte. A character
/// beyond ASCII is encoded in bytes that are all above these, so the text
/// is accepted exactly when each of its characters is.
#[verifier::external_body]
fn parses_as_header_value(text: &str) -> (accepted: bool)
    ensures
        accepted == is_header_value(text@),
{
    HeaderValue::from_str(text).is_ok()
}

/// `CorsLayer::new` and `CorsLayer::allow_methods` of tower-http: a layer
/// that holds the given methods, in their order, and an empty list of
/// origins. Each name is turned into a method by `Method::from_bytes` of the
/// `http` crate, which accepts every non-empty name of upper-case letters.
#[verifier::external_body]
fn layer_allowing_methods(methods: &Vec<String>) -> (layer: CorsLayer)
    requires
        forall|i: int| 0 <= i < methods@.len() ==> is_method_name(#[trigger] methods@[i]@),
    ensures
        layer_methods(layer) == texts(methods@),
        layer_origins(layer) == Seq::<Seq<char>>::empty(),
{
    CorsLayer::new().allow_methods(
        methods.iter().map(|method| Method::from_bytes(method.as_bytes()).unwrap()).collect::<Vec<_>>(),
    )
}

/// `CorsLayer::allow_origin` of tower-http with `Any`: the layer then holds
/// the wildcard in place of its origins, and its methods as before.
#[verifier::external_body]
fn allowing_any_origin(layer: CorsLayer) -> (allowing: CorsLayer)
    ensures
        layer_origins(allowing) == seq!["*"@],
        layer_methods(allowing) == layer_methods(layer),
{
    layer.allow_origin(Any)
}

/// `CorsLayer::allow_origin` of tower-http with a list of origins, each
/// parsed into a header value of the same bytes: the layer then holds these
/// origins, in their order, and its methods as before. The parser refuses a
/// text that cannot be the value of a header, and the layer refuses the
/// wildcard inside a list.
#[verifier::external_body]
fn allowing_origins(layer: CorsLayer, origins: &Vec<String>) -> (allowing: CorsLayer)
    requires
        all_header_values(texts(origins@)),
        !holds_wildcard(texts(origins@)),
    ensures
        layer_origins(allowing) == texts(origins@),
        layer_methods(allowing) == layer_methods(layer),
{
    layer.allow_origin(
        origins.iter().map(|origin| origin.parse::<HeaderValue>().unwrap()).collect::<Vec<_>>(),
    )
}

/// Whether an origin can be handed on as the value of a header.
pub fn is_valid_origin(origin: &str) -> (valid: bool)
    ensures
        valid == is_header_value(origin@),
{
    parses_as_header_value(origin)
}

/// Whether the wildcard is among the origins.
fn any_wildcard(cors_origins: &[String]) -> (found: bool)
    ensures
        found == holds_wildcard(texts(cors_origins@)),
{
    let wildcard = "*".to_owned();
    let mut i: usize = 0;
    while i < cors_origins.len()
        invariant
            i <= cors_origins.len(),
            wildcard@ == "*"@,
            forall|j: int| 0 <= j < i ==> (#[trigger] texts(cors_origins@)[j]) != "*"@,
        decreases cors_origins.len() - i,
    {
        if cors_origins[i] == wildcard {
            assert(texts(cors_origins@)[i as int] == "*"@);
            return true;
        }
        i += 1;
    }
    false
}

/// Whether every origin can be the value of a header.
fn all_valid(cors_origins: &[String]) -> (valid: bool)
    ensures
        valid == all_header_values(texts(cors_origins@)),
{
    let mut i: usize = 0;
    while i < cors_origins.len()
        invariant
            i <= cors_origins.len(),
            forall|j: int| 0 <= j < i ==> is_header_value(#[trigger] texts(cors_origins@)[j]),
        decreases cors_origins.len() - i,
    {
        if !is_valid_origin(cors_origins[i].as_str()) {
            assert(!is_header_value(texts(cors_origins@)[i as int]));
            return false;
        }
        i += 1;
    }
    true
}

/// Whether `wanted` is one of the origins.
fn is_listed(origins: &Vec<String>, wanted: &String) -> (listed: bool)
    ensures
        listed == texts(origins@).contains(wanted@),
{
    let mut i: usize = 0;
    while i < origins.len()
        invariant
            i <= origins.len(),
            forall|j: int| 0 <= j < i ==> (#[trigger] texts(origins@)[j]) != wanted@,
        decreases origins.len() - i,
    {
        if origins[i] == *wanted {
            assert(texts(origins@)[i as int] == wanted@);
            return true;
        }
        i += 1;
    }
    false
}

/// Whether [`build_cors`] can take the origins: the wildcard is among them,
/// or each of them can be the value of a header.
pub open spec fn usable(origins: Seq<Seq<char>>) -> bool {
    holds_wildcard(origins) || all_header_values(origins)
}

/// Builds the cross-origin rule for the configured origins.
///
/// A list that is handed on origin by origin must hold values that a header
/// can carry; a list with the wildcard is not looked at further.
pub fn build_cors(cors_origins: &[String]) -> (policy: CorsPolicy)
    requires
        usable(texts(cors_origins@)),
    ensures
        policy@ == policy_of(texts(cors_origins@)),
{
    if cors_origins.len() == 0 {
        return CorsPolicy::Disabled;
    }
    if any_wildcard(cors_origins) {
        return CorsPolicy::AllowAny;
    }
    let mut origins: Vec<String> = Vec::new();
    let mut i: usize = 0;
    while i < cors_origins.len()
        invariant
            i <= cors_origins.len(),
            origins@.len() == i,
            forall|j: int| 0 <= j < i ==> origins@[j]@ == cors_origins@[j]@,
        decreases cors_origins.len() - i,
    {
        origins.push(cors_origins[i].clone());
        i += 1;
    }
    assert(texts(origins@) =~= texts(cors_origins@));
    CorsPolicy::AllowList(origins)
}

/// Whether [`build_cors`] can take the origins.
pub fn are_usable(cors_origins: &[String]) -> (ok: bool)
    ensures
        ok == usable(texts(cors_origins@)),
{
    any_wildcard(cors_origins) || all_valid(cors_origins)
}

/// Builds the cross-origin rule for the configured origins, or nothing where
/// [`build_cors`] cannot take them.
pub fn try_build_cors(cors_origins: &[String]) -> (policy: Option<CorsPolicy>)
    ensures
        match policy {
            Some(policy) => usable(texts(cors_origins@)) && policy@ == policy_of(
                texts(cors_origins@),
            ),
            None => !usable(texts(cors_origins@)),
        },
{
    if are_usable(cors_origins) {
        Some(build_cors(cors_origins))
    } else {
        None
    }
}

/// The methods that are allowed, one by one.
pub fn methods() -> (names: Vec<String>)
    ensures
        texts(names@) == method_names(),
        forall|i: int| 0 <= i < names@.len() ==> is_method_name(#[trigger] names@[i]@),
{
    proof {
        reveal_strlit("GET");
        reveal_strlit("POST");
        reveal_strlit("PUT");
        reveal_strlit("DELETE");
        reveal_strlit("OPTIONS");
    }
    let mut names: Vec<String> = Vec::new();
    names.push("GET".to_owned());
    names.push("POST".to_owned());
    names.push("PUT".to_owned());
    names.push("DELETE".to_owned());
    names.push("OPTIONS".to_owned());
    assert(texts(names@) =~= method_names());
    names
}

/// Whether a rule can be handed to the middleware: its list, if it has
/// one, holds values that a header can carry, and not the wildcard. Every
/// rule that [`build_cors`] gives is such a rule.
pub open spec fn is_layerable(policy: CorsPolicyView) -> bool {
    policy matches CorsPolicyView::AllowList(origins) ==> all_header_values(origins)
        && !holds_wildcard(origins)
}

/// The layer that applies a rule to the requests of a service: it holds
/// the five methods, and the origins that the rule allows to be named.
pub fn cors_layer(policy: &CorsPolicy) -> (layer: CorsLayer)
    requires
        is_layerable(policy@),
    ensures
        layer_methods(layer) == method_names(),
        layer_origins(layer) == configured_origins(policy@),
{
    let layer = layer_allowing_methods(&methods());
    match policy {
        CorsPolicy::Disabled => layer,
        CorsPolicy::AllowAny => allowing_any_origin(layer),
        CorsPolicy::AllowList(origins) => allowing_origins(layer, origins),
    }
}

/// The origins that a layer holds, in the order in which they were given to
/// it: the values that it can name as the allowed origin. Where any origin
/// is allowed this is the wildcard alone, which no list can hold.
pub uninterp spec fn layer_origins(layer: CorsLayer) -> Seq<Seq<char>>;

/// The methods that a layer holds, in the order in which they were given to
/// it: the methods that it advertises on the answer to a preflight.
pub uninterp spec fn layer_methods(layer: CorsLayer) -> Seq<Seq<char>>;

/// The origins that the layer of a rule holds: none without a rule, the
/// wildcard alone where any origin is allowed, and else the listed origins.
pub open spec fn configured_origins(policy: CorsPolicyView) -> Seq<Seq<char>> {
    match policy {
        CorsPolicyView::Disabled => Seq::empty(),
        CorsPolicyView::AllowAny => seq!["*"@],
        CorsPolicyView::AllowList(origins) => origins,
    }
}

/// Whether a request is a preflight: its method is `OPTIONS`.
pub fn is_preflight(method: &str) -> (preflight: bool)
    ensures
        preflight == (method@ == "OPTIONS"@),
{
    method.to_owned() == "OPTIONS".to_owned()
}

impl CorsPolicy {
    /// Whether the rule can be handed to [`cors_layer`].
    pub fn is_layerable(&self) -> (ok: bool)
        ensures
            ok == is_layerable(self@),
    {
        match self {
            CorsPolicy::AllowList(origins) => all_valid(origins.as_slice()) && !any_wildcard(
                origins.as_slice(),
            ),
            _ => true,
        }
    }

    /// The value of `Access-Control-Allow-Origin` for a request that names
    /// `origin` as its own, or nothing where the response carries no such
    /// header.
    ///
    /// The wildcard is sent whatever the request says. A listed origin is
    /// echoed, any other gets no header: the request still proceeds, and the
    /// browser enforces the rule.
    pub fn allow_origin(&self, origin: Option<&str>) -> (value: Option<String>)
        ensures
            value_text(value) == allowed_origin(self@, origin_text(origin)),
    {
        match self {
            CorsPolicy::Disabled => None,
            CorsPolicy::AllowAny => Some("*".to_owned()),
            CorsPolicy::AllowList(origins) => match origin {
                None => None,
                Some(origin) => {
                    let wanted = origin.to_owned();
                    if is_listed(origins, &wanted) {
                        Some(wanted)
                    } else {
                        None
                    }
                },
            },
        }
    }

    /// The value of `Access-Control-Allow-Methods`: the fixed list on the
    /// answer to a preflight, under every rule, and nothing on any other
    /// response.
    pub fn allow_methods(&self, preflight: bool) -> (value: Option<String>)
        ensures
            value_text(value) == advertised_methods(self@, preflight),
    {
        if preflight {
            Some("GET,POST,PUT,DELETE,OPTIONS".to_owned())
        } else {
            None
        }
    }
}

/// The methods advertised are the allowed methods, separated by commas.
pub proof fn lemma_advertised_methods_are_the_list()
    ensures
        allowed_methods() == comma_separated(method_names()),
{
    reveal_strlit("GET,POST,PUT,DELETE,OPTIONS");
    reveal_strlit("GET");
    reveal_strlit("POST");
    reveal_strlit("PUT");
    reveal_strlit("DELETE");
    reveal_strlit("OPTIONS");
    let names = method_names();
    reveal_with_fuel(comma_separated, 6);
    assert(names.drop_last() =~= seq!["GET"@, "POST"@, "PUT"@, "DELETE"@]);
    assert(names.drop_last().drop_last() =~= seq!["GET"@, "POST"@, "PUT"@]);
    assert(names.drop_last().drop_last().drop_last() =~= seq!["GET"@, "POST"@]);
    assert(names.drop_last().drop_last().drop_last().drop_last() =~= seq!["GET"@]);
    assert(allowed_methods() =~= comma_separated(names));
}

/// Every rule that usable origins stand for can be handed to the
/// middleware.
pub proof fn lemma_built_rules_are_layerable(origins: Seq<Seq<char>>)
    requires
        usable(origins),
    ensures
        is_layerable(policy_of(origins)),
{
}

/// Under every rule that a non-empty list of origins stands for, the answer
/// to a preflight advertises the fixed list of methods.
pub proof fn lemma_preflight_advertises_methods(origins: Seq<Seq<char>>)
    requires
        origins.len() > 0,
    ensures
        advertised_methods(policy_of(origins), true) == Some("GET,POST,PUT,DELETE,OPTIONS"@),
{
}

/// Where the wildcard is configured, every response allows any origin,
/// whatever origin the request names and whether it names one.
pub proof fn lemma_wildcard_allows_any_origin(origins: Seq<Seq<char>>, origin: Option<Seq<char>>)
    requires
        holds_wildcard(origins),
    ensures
        allowed_origin(policy_of(origins), origin) == Some("*"@),
{
}

/// Where origins are listed without the wildcard, a request's origin is
/// echoed exactly when it is one of them, and a request that names no origin
/// gets no header.
pub proof fn lemma_listed_origin_is_echoed(origins: Seq<Seq<char>>, origin: Option<Seq<char>>)
    requires
        !holds_wildcard(origins),
    ensures
        allowed_origin(policy_of(origins), origin) == if origin is Some && origins.contains(
            origin->0,
        ) {
            origin
        } else {
            None
        },
{
}

} // verus!
