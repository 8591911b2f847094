//! The DNS-over-HTTPS listener's request space: which request carries a
//! query, where the query is found in it, and what is answered.
//!
//! The caller speaks HTTP and TLS.  It hands over method, path and query
//! string of a request and acts on the [`Route`] it gets back.  Unlike the UDP
//! and TCP listeners this one leaves the transaction ID alone: every request
//! has a reply sink of its own.

use vstd::prelude::*;
use vstd::string::*;

verus! {

/// The one path that is served.
pub const DNS_QUERY_PATH: &'static str = "/dns-query";

/// Name of the query parameter that carries the message in a GET request.
pub const DNS_PARAMETER: &'static str = "dns";

/// Media type of a DNS wire message.
pub const DNS_MESSAGE_TYPE: &'static str = "application/dns-message";

/// Body of the answer to a GET request without the parameter.
pub const MISSING_QUERY_TEXT: &'static str = "No DNS query message passed in URI";

/// Body of the answer to every request outside the served space.
pub const HELP_TEXT: &'static str =
    "This is a DNS-over-HTTPS resolver. Try querying /dns-query as per RFC 8484";

/// Capacity of the reply sink made for each request.
pub const REPLY_CAPACITY: usize = 1;

/// Request method, as far as the listener tells methods apart.
#[derive(Clone, Copy, Debug, PartialEq, Eq, Structural)]
pub enum Method {
    Get,
    Post,
    Other,
}

/// The name-value pairs of a query string, in order, as the `url` crate reads
/// the `application/x-www-form-urlencoded` format: split at `&` and at the
/// first `=`, `+` for a space, percent-escapes undone.
pub uninterp spec fn form_pairs(query: Seq<char>) -> Seq<(Seq<char>, Seq<char>)>;

/// The octets that `text` stands for in base64 with the URL-safe alphabet and
/// without padding, as the `base64` crate decodes it; `None` where it does
/// not decode.
pub uninterp spec fn base64url_decoded(text: Seq<char>) -> Option<Seq<u8>>;

/// Calls `url::form_urlencoded::parse` on the query string and collects the
/// pairs as owned strings.  Claimed: the pairs depend on the string alone.
#[verifier::external_body]
fn parse_form_pairs(query: &str) -> (pairs: Vec<(String, String)>)
    ensures
        pairs.deep_view() == form_pairs(query@),
{
    url::form_urlencoded::parse(query.as_bytes()).into_owned().collect()
}

/// Calls `base64::Engine::decode` on an engine made by
/// `GeneralPurpose::new` from the crate's URL-safe alphabet and its
/// no-padding configuration.  Claimed: the outcome depends on the text alone.
#[verifier::external_body]
fn decode_base64url(text: &str) -> (octets: Option<Vec<u8>>)
    ensures
        octets.deep_view() == base64url_decoded(text@),
{
    let engine = base64::engine::GeneralPurpose::new(
        &base64::alphabet::URL_SAFE,
        base64::engine::general_purpose::NO_PAD,
    );
    base64::Engine::decode(&engine, text).ok()
}

/// The value of the first pair named `dns`, if there is such a pair.
pub open spec fn dns_value(pairs: Seq<(Seq<char>, Seq<char>)>) -> Option<Seq<char>>
    decreases pairs.len(),
{
    if pairs.len() == 0 {
        None
    } else if pairs[0].0 == DNS_PARAMETER@ {
        Some(pairs[0].1)
    } else {
        dns_value(pairs.drop_first())
    }
}

/// What is done with a request, over sequences.
#[verifier::ext_equal]
pub enum Routing {
    /// The query came in the URI: resolve it and answer with the reply.
    Resolve(Seq<u8>),
    /// The query is the request body: read it, resolve it, answer.
    ResolveBody,
    /// A GET request without the parameter.
    MissingQuery,
    /// A GET request whose parameter is not base64url.
    UndecodableQuery,
    /// Anything else.
    Help,
}

/// What is done with a request.
#[derive(Debug, PartialEq, Eq)]
pub enum Route {
    /// The query came in the URI: resolve it and answer with the reply.
    Resolve(Vec<u8>),
    /// The query is the request body: read it, resolve it, answer.
    ResolveBody,
    /// A GET request without the parameter.
    MissingQuery,
    /// A GET request whose parameter is not base64url.
    UndecodableQuery,
    /// Anything else.
    Help,
}

impl View for Route {
    type V = Routing;

    open spec fn view(&self) -> Routing {
        match *self {
            Route::Resolve(q) => Routing::Resolve(q@),
            Route::ResolveBody => Routing::ResolveBody,
            Route::MissingQuery => Routing::MissingQuery,
            Route::UndecodableQuery => Routing::UndecodableQuery,
            Route::Help => Routing::Help,
        }
    }
}

/// The request space.  `parameter` is `None` where the query string has no
/// pair named `dns`, and else what the value of the first such pair decodes
/// to.
pub open spec fn routing(method: Method, path: Seq<char>, parameter: Option<Option<Seq<u8>>>)
    -> Routing {
    if path != DNS_QUERY_PATH@ {
        Routing::Help
    } else {
        match method {
            Method::Get => match parameter {
                None => Routing::MissingQuery,
                Some(None) => Routing::UndecodableQuery,
                Some(Some(query)) => Routing::Resolve(query),
            },
            Method::Post => Routing::ResolveBody,
            Method::Other => Routing::Help,
        }
    }
}

/// The `dns` parameter of a query string, decoded.
pub open spec fn parameter_of(query: Seq<char>) -> Option<Option<Seq<u8>>> {
    match dns_value(form_pairs(query)) {
        Some(value) => Some(base64url_decoded(value)),
        None => None,
    }
}

/// Whether two texts are the same.
fn same_text(a: &str, b: &str) -> (same: bool)
    ensures
        same == (a@ == b@),
{
    let left = String::from_str(a);
    let right = String::from_str(b);
    left == right
}

/// Finds the first pair named `dns`.
pub fn find_dns_parameter(pairs: &Vec<(String, String)>) -> (found: Option<usize>)
    ensures
        match found {
            Some(i) => i < pairs.len() && dns_value(pairs.deep_view()) == Some(
                pairs@[i as int].1@,
            ),
            None => dns_value(pairs.deep_view()) is None,
        },
{
    let ghost all = pairs.deep_view();
    let mut i: usize = 0;
    assert(all.skip(0) =~= all);
    while i < pairs.len()
        invariant
            i <= pairs.len(),
            all == pairs.deep_view(),
            dns_value(all) == dns_value(all.skip(i as int)),
        decreases pairs.len() - i,
    {
        let ghost rest = all.skip(i as int);
        assert(rest[0] == (pairs@[i as int].0@, pairs@[i as int].1@));
        if same_text(pairs[i].0.as_str(), DNS_PARAMETER) {
            return Some(i);
        }
        assert(rest.drop_first() =~= all.skip(i + 1));
        i = i + 1;
    }
    None
}

/// Applies the request space to a request whose `dns` parameter was looked
/// for and decoded already.
pub fn route_decoded(method: Method, path: &str, parameter: Option<Option<Vec<u8>>>) -> (route:
    Route)
    ensures
        route@ == routing(method, path@, parameter.deep_view()),
{
    if !same_text(path, DNS_QUERY_PATH) {
        return Route::Help;
    }
    match method {
        Method::Get => match parameter {
            None => Route::MissingQuery,
            Some(None) => Route::UndecodableQuery,
            Some(Some(query)) => {
                assert(query.deep_view() =~= query@);
                Route::Resolve(query)
            },
        },
        Method::Post => Route::ResolveBody,
        Method::Other => Route::Help,
    }
}

/// Routes a request by its method, the path of its URI and the query string
/// of its URI (empty where the URI has none).
pub fn route(method: Method, path: &str, query: &str) -> (route: Route)
    ensures
        route@ == routing(method, path@, parameter_of(query@)),
{
    let pairs = parse_form_pairs(query);
    let parameter = match find_dns_parameter(&pairs) {
        Some(i) => Some(decode_base64url(pairs[i].1.as_str())),
        None => None,
    };
    route_decoded(method, path, parameter)
}

/// What goes back to the HTTP client.
#[derive(Debug, PartialEq, Eq)]
pub struct Response {
    /// Status code.
    pub status: u16,
    /// Value of the `content-type` header, if the header is set.
    pub content_type: Option<&'static str>,
    /// The body.
    pub body: Vec<u8>,
}

/// The answer to a resolved query: the reply as a DNS message.
pub fn answer(reply: Vec<u8>) -> (response: Response)
    ensures
        response.status == 200,
        response.content_type == Some(DNS_MESSAGE_TYPE),
        response.body@ == reply@,
{
    Response { status: 200, content_type: Some(DNS_MESSAGE_TYPE), body: reply }
}

/// The answer to a GET request without the parameter.
pub fn missing_query() -> (response: Response)
    ensures
        response.status == 400,
        response.content_type is None,
        response.body@ == MISSING_QUERY_TEXT.spec_bytes(),
{
    Response { status: 400, content_type: None, body: MISSING_QUERY_TEXT.as_bytes_vec() }
}

/// The answer to every request outside the served space.
pub fn help() -> (response: Response)
    ensures
        response.status == 200,
        response.content_type is None,
        response.body@ == HELP_TEXT.spec_bytes(),
{
    Response { status: 200, content_type: None, body: HELP_TEXT.as_bytes_vec() }
}

} // verus!
