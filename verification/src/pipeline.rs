//! What the layers around the routes do to a response.
//!
//! From the outside in: the configured extra headers, the hook that counts
//! requests, compression, and the cross-origin rule. A response travels the
//! other way, so the extra headers are set last and nothing replaces them.

use vstd::prelude::*;
use crate::compression::{compresses, CompressionPredicate};
use crate::cors::{advertised_methods, allowed_origin, is_preflight, CorsPolicy, CorsPolicyView};
use crate::tls_config::{decimal, decimal_text};

verus! {

/// A header of a response. Names are compared as they are written; the
/// caller writes them in lower case.
#[derive(Clone, Debug, PartialEq, Eq)]
pub struct Header {
    pub name: String,
    pub value: String,
}

/// The mathematical value of a [`Header`].
pub struct HeaderView {
    pub name: Seq<char>,
    pub value: Seq<char>,
}

impl View for Header {
    type V = HeaderView;

    open spec fn view(&self) -> HeaderView {
        HeaderView { name: self.name@, value: self.value@ }
    }
}

/// The values of a list of headers.
pub open spec fn header_views(headers: Seq<Header>) -> Seq<HeaderView> {
    Seq::new(headers.len(), |i: int| headers[i]@)
}

/// The headers that do not have the given name, in their order.
pub open spec fn without(headers: Seq<HeaderView>, name: Seq<char>) -> Seq<HeaderView>
    decreases headers.len(),
{
    if headers.len() == 0 {
        Seq::empty()
    } else if headers.last().name == name {
        without(headers.drop_last(), name)
    } else {
        without(headers.drop_last(), name).push(headers.last())
    }
}

/// The headers after one header was set: it replaces every header of its
/// name and stands last.
pub open spec fn with_header(headers: Seq<HeaderView>, header: HeaderView) -> Seq<HeaderView> {
    without(headers, header.name).push(header)
}

/// The headers after each of `extra` was set, in order.
pub open spec fn with_headers(headers: Seq<HeaderView>, extra: Seq<HeaderView>) -> Seq<HeaderView>
    decreases extra.len(),
{
    if extra.len() == 0 {
        headers
    } else {
        with_header(with_headers(headers, extra.drop_last()), extra.last())
    }
}

/// The values that a list of headers holds under a name, in their order.
pub open spec fn values_of(headers: Seq<HeaderView>, name: Seq<char>) -> Seq<Seq<char>>
    decreases headers.len(),
{
    if headers.len() == 0 {
        Seq::empty()
    } else if headers.last().name == name {
        values_of(headers.drop_last(), name).push(headers.last().value)
    } else {
        values_of(headers.drop_last(), name)
    }
}

/// The values under a name after a layer had its say: the one value that
/// the layer sets, or what was there before where it sets none.
pub open spec fn decided(value: Option<Seq<char>>, before: Seq<Seq<char>>) -> Seq<Seq<char>> {
    match value {
        Some(value) => seq![value],
        None => before,
    }
}

/// The value that the extra headers set under a name, if they name it: that
/// of the last of them that does.
pub open spec fn extra_value(extra: Seq<HeaderView>, name: Seq<char>) -> Option<Seq<char>> {
    if values_of(extra, name).len() > 0 {
        Some(values_of(extra, name).last())
    } else {
        None
    }
}

/// The headers after an optional header was set.
pub open spec fn with_optional(headers: Seq<HeaderView>, name: Seq<char>, value: Option<Seq<char>>) -> Seq<
    HeaderView,
> {
    match value {
        Some(value) => with_header(headers, HeaderView { name, value }),
        None => headers,
    }
}

/// The layers around the routes.
#[derive(Clone, Copy, Debug, PartialEq, Eq, Structural)]
pub enum Layer {
    /// Sets the configured extra headers on every response.
    ExtraHeaders,
    /// Reports method, status and latency of every request. It changes
    /// nothing.
    RequestCounter,
    /// Compresses the responses that qualify.
    Compression,
    /// Applies the cross-origin rule.
    Cors,
}

/// The layers, from the outermost to the innermost.
pub fn layers() -> (order: Vec<Layer>)
    ensures
        order@ == seq![Layer::ExtraHeaders, Layer::RequestCounter, Layer::Compression, Layer::Cors],
{
    let mut order: Vec<Layer> = Vec::new();
    order.push(Layer::ExtraHeaders);
    order.push(Layer::RequestCounter);
    order.push(Layer::Compression);
    order.push(Layer::Cors);
    order
}

/// Removes the headers of the given name.
fn remove_header(headers: Vec<Header>, name: &String) -> (kept: Vec<Header>)
    ensures
        header_views(kept@) == without(header_views(headers@), name@),
{
    let mut kept: Vec<Header> = Vec::new();
    let ghost given = header_views(headers@);
    for header in iter: headers
        invariant
            iter.seq() == headers@,
            given == header_views(headers@),
            header_views(kept@) == without(given.take(iter.index() as int), name@),
    {
        let ghost i = iter.index() as int;
        proof {
            assert(given.take(i + 1).drop_last() == given.take(i));
            assert(given.take(i + 1).last() == header@);
        }
        if header.name != *name {
            let ghost before = header_views(kept@);
            kept.push(header);
            assert(header_views(kept@) =~= before.push(header@));
        }
    }
    assert(given.take(given.len() as int) == given);
    kept
}

/// Sets a header: it replaces every header of its name.
pub fn set_header(headers: Vec<Header>, header: Header) -> (set: Vec<Header>)
    ensures
        header_views(set@) == with_header(header_views(headers@), header@),
{
    let mut set = remove_header(headers, &header.name);
    let ghost before = header_views(set@);
    set.push(header);
    assert(header_views(set@) =~= before.push(header@));
    set
}

/// Sets each of the extra headers, in order.
pub fn set_headers(headers: Vec<Header>, extra: &Vec<Header>) -> (set: Vec<Header>)
    ensures
        header_views(set@) == with_headers(header_views(headers@), header_views(extra@)),
{
    let mut set = headers;
    let ghost given = header_views(headers@);
    let ghost all = header_views(extra@);
    let mut i: usize = 0;
    while i < extra.len()
        invariant
            i <= extra.len(),
            all == header_views(extra@),
            header_views(set@) == with_headers(given, all.take(i as int)),
        decreases extra.len() - i,
    {
        proof {
            assert(all.take(i + 1).drop_last() == all.take(i as int));
            assert(all.take(i + 1).last() == extra@[i as int]@);
        }
        let header = Header { name: extra[i].name.clone(), value: extra[i].value.clone() };
        set = set_header(set, header);
        i += 1;
    }
    assert(all.take(all.len() as int) == all);
    set
}

/// What the layers read of a request.
#[derive(Clone, Debug, PartialEq, Eq)]
pub struct Request {
    /// The method, in upper case.
    pub method: String,
    /// The origin that the request names as its own, if it names one.
    pub origin: Option<String>,
    /// Whether the client accepts one of the encodings that the server can
    /// compress with.
    pub accepts_compression: bool,
}

/// What the layers read and write of a response.
#[derive(Clone, Debug, PartialEq, Eq)]
pub struct Response {
    pub status_code: u16,
    pub headers: Vec<Header>,
    /// The size of the body, where it is known.
    pub size: Option<u64>,
    /// The content type, empty where the response names none.
    pub content_type: String,
}

/// A response after the rules of this server were applied to its headers,
/// and whether its body is compressed on the way. What the compressing
/// library and the cross-origin library add to the headers on their own
/// account is theirs, and not shown here.
#[derive(Clone, Debug, PartialEq, Eq)]
pub struct Outgoing {
    pub response: Response,
    pub compressed: bool,
}

/// The configuration of the layers.
#[derive(Clone, Debug, PartialEq, Eq)]
pub struct Pipeline {
    pub extra_headers: Vec<Header>,
    pub compression: CompressionPredicate,
    pub cors: CorsPolicy,
}

/// The text of the origin that a request names, if it names one.
pub open spec fn named_origin(request: Request) -> Option<Seq<char>> {
    match request.origin {
        Some(origin) => Some(origin@),
        None => None,
    }
}

/// The value that the cross-origin rule sets under a name, if it sets one:
/// the allowed origin, where there is one, and on the answer to a preflight
/// the allowed methods.
pub open spec fn cors_value(policy: CorsPolicyView, request: Request, name: Seq<char>) -> Option<Seq<char>> {
    if name == "access-control-allow-origin"@ {
        allowed_origin(policy, named_origin(request))
    } else if name == "access-control-allow-methods"@ {
        advertised_methods(policy, request.method@ == "OPTIONS"@)
    } else {
        None
    }
}

/// Whether the layers decide what a response holds under a name: the two
/// names of the cross-origin rule, and every name of an extra header.
pub open spec fn is_decided(pipeline: Pipeline, name: Seq<char>) -> bool {
    ||| name == "access-control-allow-origin"@
    ||| name == "access-control-allow-methods"@
    ||| extra_value(header_views(pipeline.extra_headers@), name) is Some
}

/// The values that a response holds under a name that the layers decide,
/// where `before` are the values that the routes gave under it: the
/// cross-origin rule has its say first and the extra headers last, so an
/// extra header replaces whatever stood under its name.
pub open spec fn outgoing_values(
    pipeline: Pipeline,
    request: Request,
    before: Seq<Seq<char>>,
    name: Seq<char>,
) -> Seq<Seq<char>> {
    decided(
        extra_value(header_views(pipeline.extra_headers@), name),
        decided(cors_value(pipeline.cors@, request, name), before),
    )
}

/// The headers after the cross-origin rule was applied, as this library
/// lists them.
spec fn cors_headers(
    policy: CorsPolicyView,
    preflight: bool,
    origin: Option<Seq<char>>,
    headers: Seq<HeaderView>,
) -> Seq<HeaderView> {
    with_optional(
        with_optional(headers, "access-control-allow-origin"@, allowed_origin(policy, origin)),
        "access-control-allow-methods"@,
        advertised_methods(policy, preflight),
    )
}

/// The headers after all rules were applied, as this library lists them:
/// those of the cross-origin rule set first, the configured extra headers
/// last.
spec fn outgoing_headers(pipeline: Pipeline, request: Request, headers: Seq<HeaderView>) -> Seq<
    HeaderView,
> {
    with_headers(
        cors_headers(pipeline.cors@, request.method@ == "OPTIONS"@, named_origin(request), headers),
        header_views(pipeline.extra_headers@),
    )
}

impl Pipeline {
    /// Sets a header where there is a value for it.
    fn set_optional(headers: Vec<Header>, name: &str, value: Option<String>) -> (set: Vec<Header>)
        ensures
            header_views(set@) == with_optional(
                header_views(headers@),
                name@,
                match value {
                    Some(value) => Some(value@),
                    None => None,
                },
            ),
    {
        match value {
            Some(value) => set_header(headers, Header { name: name.to_owned(), value }),
            None => headers,
        }
    }

    /// Takes a response through the layers, from the cross-origin rule
    /// outwards.
    fn through_layers(&self, request: &Request, response: Response) -> (outgoing: Outgoing)
        ensures
            outgoing.response.status_code == response.status_code,
            outgoing.response.size == response.size,
            outgoing.response.content_type == response.content_type,
            header_views(outgoing.response.headers@) == outgoing_headers(
                *self,
                *request,
                header_views(response.headers@),
            ),
            forall|name: Seq<char>|
                is_decided(*self, name) ==> #[trigger] values_of(
                    header_views(outgoing.response.headers@),
                    name,
                ) == outgoing_values(
                    *self,
                    *request,
                    values_of(header_views(response.headers@), name),
                    name,
                ),
            outgoing.compressed == compresses(
                self.compression.minimum(),
                request.accepts_compression,
                response.size,
                response.content_type@,
            ),
    {
        let ghost given = header_views(response.headers@);
        let preflight = is_preflight(request.method.as_str());
        let origin = match &request.origin {
            Some(origin) => Some(origin.as_str()),
            None => None,
        };
        let compressed = self.compression.compresses_response(
            request.accepts_compression,
            response.size,
            response.content_type.as_str(),
        );
        let headers = Self::set_optional(
            response.headers,
            "access-control-allow-origin",
            self.cors.allow_origin(origin),
        );
        let headers = Self::set_optional(
            headers,
            "access-control-allow-methods",
            self.cors.allow_methods(preflight),
        );
        let headers = set_headers(headers, &self.extra_headers);
        proof {
            assert(header_views(headers@) == outgoing_headers(*self, *request, given));
            assert forall|name: Seq<char>| #[trigger]
                values_of(header_views(headers@), name) == outgoing_values(
                    *self,
                    *request,
                    values_of(given, name),
                    name,
                ) by {
                lemma_values_of_outgoing(*self, *request, given, name);
            }
        }
        Outgoing {
            response: Response {
                status_code: response.status_code,
                headers,
                size: response.size,
                content_type: response.content_type,
            },
            compressed,
        }
    }

    /// Answers a preflight without asking the routes: an empty response
    /// with status 200, taken through the layers. Any other request gets no
    /// answer here and goes to the routes.
    ///
    /// Under each name that the layers decide the answer holds what they
    /// set, and nothing where they set nothing.
    pub fn answer_preflight(&self, request: &Request) -> (answer: Option<Outgoing>)
        ensures
            match answer {
                Some(outgoing) => {
                    &&& request.method@ == "OPTIONS"@
                    &&& outgoing.response.status_code == 200
                    &&& outgoing.response.size == Some(0u64)
                    &&& outgoing.response.content_type@ == Seq::<char>::empty()
                    &&& forall|name: Seq<char>|
                        is_decided(*self, name) ==> #[trigger] values_of(
                            header_views(outgoing.response.headers@),
                            name,
                        ) == outgoing_values(*self, *request, Seq::empty(), name)
                    &&& !outgoing.compressed
                },
                None => request.method@ != "OPTIONS"@,
            },
    {
        if is_preflight(request.method.as_str()) {
            let empty = Response {
                status_code: 200,
                headers: Vec::new(),
                size: Some(0),
                content_type: String::new(),
            };
            assert(header_views(empty.headers@) =~= Seq::<HeaderView>::empty());
            assert forall|name: Seq<char>|
                #[trigger] values_of(header_views(empty.headers@), name) == Seq::<Seq<char>>::empty() by {}
            Some(self.through_layers(request, empty))
        } else {
            None
        }
    }

    /// Takes the response of the routes through the layers.
    ///
    /// Status, size and content type stay. Under each name that the layers
    /// decide the response then holds what they set: the cross-origin rule
    /// first, then the configured extra headers, which therefore stand on
    /// every response, whatever its status. Where no layer sets a value
    /// under such a name, what the routes gave under it stays.
    pub fn finish(&self, request: &Request, response: Response) -> (outgoing: Outgoing)
        ensures
            outgoing.response.status_code == response.status_code,
            outgoing.response.size == response.size,
            outgoing.response.content_type == response.content_type,
            forall|name: Seq<char>|
                is_decided(*self, name) ==> #[trigger] values_of(
                    header_views(outgoing.response.headers@),
                    name,
                ) == outgoing_values(
                    *self,
                    *request,
                    values_of(header_views(response.headers@), name),
                    name,
                ),
            outgoing.compressed == compresses(
                self.compression.minimum(),
                request.accepts_compression,
                response.size,
                response.content_type@,
            ),
    {
        self.through_layers(request, response)
    }
}

/// The two labels under which a request is counted: its method, and its
/// status in decimal.
pub fn counter_labels(method: &str, status_code: u16) -> (labels: (String, String))
    ensures
        labels.0@ == method@,
        labels.1@ == decimal(status_code as nat),
{
    (method.to_owned(), decimal_text(status_code as usize))
}

/// A header that is not of the removed name stays.
pub proof fn lemma_other_names_stay(headers: Seq<HeaderView>, name: Seq<char>, header: HeaderView)
    requires
        headers.contains(header),
        header.name != name,
    ensures
        without(headers, name).contains(header),
    decreases headers.len(),
{
    let i = choose|i: int| 0 <= i < headers.len() && headers[i] == header;
    if i == headers.len() - 1 {
        let kept = without(headers.drop_last(), name);
        assert(kept.push(header)[kept.len() as int] == header);
    } else {
        assert(headers.drop_last()[i] == header);
        lemma_other_names_stay(headers.drop_last(), name, header);
        let kept = without(headers.drop_last(), name);
        let k = choose|k: int| 0 <= k < kept.len() && kept[k] == header;
        if headers.last().name != name {
            assert(kept.push(headers.last())[k] == header);
        }
    }
}

/// Every extra header whose name no later extra header has stands among
/// the headers after the extra headers were set, whatever the headers were
/// before.
pub proof fn lemma_extra_header_is_present(headers: Seq<HeaderView>, extra: Seq<HeaderView>, i: int)
    requires
        0 <= i < extra.len(),
        forall|j: int| i < j < extra.len() ==> (#[trigger] extra[j]).name != extra[i].name,
    ensures
        with_headers(headers, extra).contains(extra[i]),
    decreases extra.len(),
{
    let before = with_headers(headers, extra.drop_last());
    let kept = without(before, extra.last().name);
    if i == extra.len() - 1 {
        assert(kept.push(extra.last())[kept.len() as int] == extra[i]);
    } else {
        assert forall|j: int| i < j < extra.drop_last().len() implies (#[trigger] extra.drop_last()[j]).name
            != extra.drop_last()[i].name by {
            assert(extra.drop_last()[j] == extra[j]);
        }
        lemma_extra_header_is_present(headers, extra.drop_last(), i);
        assert(extra.drop_last()[i] == extra[i]);
        assert(extra[extra.len() - 1].name != extra[i].name);
        lemma_other_names_stay(before, extra.last().name, extra[i]);
        let k = choose|k: int| 0 <= k < kept.len() && kept[k] == extra[i];
        assert(kept.push(extra.last())[k] == extra[i]);
    }
}

/// Removing a name empties its values and leaves those of every other
/// name.
proof fn lemma_values_of_without(headers: Seq<HeaderView>, removed: Seq<char>, name: Seq<char>)
    ensures
        values_of(without(headers, removed), name) == if name == removed {
            Seq::empty()
        } else {
            values_of(headers, name)
        },
    decreases headers.len(),
{
    if headers.len() > 0 {
        lemma_values_of_without(headers.drop_last(), removed, name);
        if headers.last().name != removed {
            let kept = without(headers.drop_last(), removed);
            assert(kept.push(headers.last()).drop_last() == kept);
        }
    }
}

/// Setting a header leaves one value under its name and the values of every
/// other name as they were.
proof fn lemma_values_of_with_header(headers: Seq<HeaderView>, header: HeaderView, name: Seq<char>)
    ensures
        values_of(with_header(headers, header), name) == decided(
            if name == header.name {
                Some(header.value)
            } else {
                None
            },
            values_of(headers, name),
        ),
{
    let kept = without(headers, header.name);
    lemma_values_of_without(headers, header.name, name);
    assert(kept.push(header).drop_last() == kept);
    if name == header.name {
        assert(Seq::<Seq<char>>::empty().push(header.value) == seq![header.value]);
    }
}

/// Setting the extra headers leaves under each of their names the value of
/// the last of them, and the values of every other name as they were.
proof fn lemma_values_of_with_headers(headers: Seq<HeaderView>, extra: Seq<HeaderView>, name: Seq<char>)
    ensures
        values_of(with_headers(headers, extra), name) == decided(
            extra_value(extra, name),
            values_of(headers, name),
        ),
    decreases extra.len(),
{
    if extra.len() > 0 {
        lemma_values_of_with_headers(headers, extra.drop_last(), name);
        lemma_values_of_with_header(with_headers(headers, extra.drop_last()), extra.last(), name);
    }
}

/// The values that the listed headers hold under a name are those that the
/// layers decide, and under any other name those that the routes gave.
proof fn lemma_values_of_outgoing(
    pipeline: Pipeline,
    request: Request,
    headers: Seq<HeaderView>,
    name: Seq<char>,
)
    ensures
        values_of(outgoing_headers(pipeline, request, headers), name) == outgoing_values(
            pipeline,
            request,
            values_of(headers, name),
            name,
        ),
{
    let origin = allowed_origin(pipeline.cors@, named_origin(request));
    let methods = advertised_methods(pipeline.cors@, request.method@ == "OPTIONS"@);
    let first = with_optional(headers, "access-control-allow-origin"@, origin);
    let second = with_optional(first, "access-control-allow-methods"@, methods);
    reveal_strlit("access-control-allow-origin");
    reveal_strlit("access-control-allow-methods");
    assert("access-control-allow-origin"@ != "access-control-allow-methods"@) by {
        assert("access-control-allow-origin"@[21] == 'o');
        assert("access-control-allow-methods"@[21] == 'm');
    }
    if origin is Some {
        lemma_values_of_with_header(
            headers,
            HeaderView { name: "access-control-allow-origin"@, value: origin->0 },
            name,
        );
    }
    if methods is Some {
        lemma_values_of_with_header(
            first,
            HeaderView { name: "access-control-allow-methods"@, value: methods->0 },
            name,
        );
    }
    lemma_values_of_with_headers(second, header_views(pipeline.extra_headers@), name);
}

/// Where one extra header alone has a name, the extra headers set its value
/// under that name.
pub proof fn lemma_single_extra_value(extra: Seq<HeaderView>, i: int)
    requires
        0 <= i < extra.len(),
        forall|j: int| i < j < extra.len() ==> (#[trigger] extra[j]).name != extra[i].name,
    ensures
        extra_value(extra, extra[i].name) == Some(extra[i].value),
    decreases extra.len(),
{
    if i < extra.len() - 1 {
        assert forall|j: int| i < j < extra.drop_last().len() implies (#[trigger] extra.drop_last()[j]).name
            != extra.drop_last()[i].name by {
            assert(extra.drop_last()[j] == extra[j]);
        }
        lemma_single_extra_value(extra.drop_last(), i);
        assert(extra.drop_last()[i] == extra[i]);
        assert(extra[extra.len() - 1].name != extra[i].name);
    }
}

/// Every configured extra header stands on every response, a reply of a
/// handler and an error alike, whatever the routes and the cross-origin rule
/// put under its name, as long as the configuration names each header once:
/// its value is the one value that the response holds under its name.
pub proof fn lemma_extra_headers_on_every_response(
    pipeline: Pipeline,
    request: Request,
    before: Seq<Seq<char>>,
    i: int,
)
    requires
        0 <= i < pipeline.extra_headers@.len(),
        forall|j: int, k: int|
            0 <= j < k < pipeline.extra_headers@.len() ==> (#[trigger] pipeline.extra_headers@[j]).name@
                != (#[trigger] pipeline.extra_headers@[k]).name@,
    ensures
        is_decided(pipeline, pipeline.extra_headers@[i].name@),
        outgoing_values(pipeline, request, before, pipeline.extra_headers@[i].name@) == seq![
            pipeline.extra_headers@[i].value@,
        ],
{
    let extra = header_views(pipeline.extra_headers@);
    assert forall|j: int| i < j < extra.len() implies (#[trigger] extra[j]).name != extra[i].name by {
        assert(pipeline.extra_headers@[i].name@ != pipeline.extra_headers@[j].name@);
    }
    lemma_single_extra_value(extra, i);
}

} // verus!
