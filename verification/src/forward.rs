//! The request forwarder: turning a request description into an outbound
//! call, and the transport's outcome into a response description or an error
//! description.

use vstd::prelude::*;

use crate::headers::{
    extend_pairs, lemma_extend_pairs_union, optional_pair_views, pair_views, pairs_to_map,
    collect_text_headers, text_header_map, HeaderMap,
};
use crate::method::{method_verb, parse_method, Method};
use crate::text::{decimal_of, u64_to_decimal};

verus! {

/// A description of the request to forward. The method is matched without
/// regard to ASCII case.
#[derive(Debug)]
pub struct ApiRequest {
    pub url: String,
    pub method: String,
    pub headers: Option<HeaderMap>,
    pub body: Option<String>,
}

/// A description of the response a forwarded call produced.
#[derive(Debug)]
pub struct ApiResponse {
    pub status: u16,
    pub headers: HeaderMap,
    pub body: String,
}

/// A description of why a forwarded call failed. The status is present
/// exactly when a remote response was received but its body could not be
/// read.
#[derive(Debug)]
pub struct ApiError {
    pub message: String,
    pub status: Option<u16>,
}

/// An outbound call, ready to be put on the wire: a verb, the identification
/// headers followed by the caller's, and the body unchanged.
#[derive(Debug)]
pub struct OutboundRequest {
    pub method: Method,
    pub url: String,
    pub correlation_id: String,
    pub headers: HeaderMap,
    pub body: Option<String>,
}

/// What the transport reported: either a remote response, whose body may or
/// may not have been readable as text, or a failure to carry the call at all.
#[derive(Debug)]
pub enum TransportOutcome {
    Response { status: u16, headers: Vec<(String, Option<String>)>, body: Result<String, String> },
    Failed { detail: String },
}

/// A lower-case hexadecimal digit.
pub open spec fn is_lower_hex_digit(c: char) -> bool {
    (48 <= c as u32 && c as u32 <= 57) || (97 <= c as u32 && c as u32 <= 102)
}

/// A correlation id: eight lower-case hexadecimal digits.
pub open spec fn valid_correlation_id(s: Seq<char>) -> bool {
    s.len() == 8 && forall|i: int| 0 <= i < s.len() ==> is_lower_hex_digit(#[trigger] s[i])
}

/// The headers that mark an outbound call as coming from the forwarder.
pub open spec fn identification_headers(id: Seq<char>) -> Map<Seq<char>, Seq<char>> {
    map!["X-Proxy"@ => "true"@, "X-Proxy-Request-ID"@ => id]
}

/// The caller's headers, as a mapping; none given reads as an empty mapping.
pub open spec fn caller_header_map(h: Option<HeaderMap>) -> Map<Seq<char>, Seq<char>> {
    match h {
        Some(m) => m@,
        None => Map::empty(),
    }
}

/// The headers of an outbound call: the identification headers first, then
/// the caller's, a caller's value winning over an identification value of
/// the same name.
pub open spec fn outbound_headers(caller: Map<Seq<char>, Seq<char>>, id: Seq<char>) -> Map<
    Seq<char>,
    Seq<char>,
> {
    identification_headers(id).union_prefer_right(caller)
}

/// The headers of a successful response: what the remote sent, augmented
/// with the proxy marks.
pub open spec fn proxied_headers(
    remote: Map<Seq<char>, Seq<char>>,
    id: Seq<char>,
    elapsed_ms: int,
) -> Map<Seq<char>, Seq<char>> {
    remote.insert("X-Proxied"@, "true"@).insert("X-Proxy-Request-ID"@, id).insert(
        "X-Proxy-Elapsed-Ms"@,
        decimal_of(elapsed_ms),
    )
}

/// The message reported for an unrecognized method.
pub open spec fn unsupported_method_message(m: Seq<char>) -> Seq<char> {
    "Unsupported HTTP method: "@ + m
}

/// The message reported when the transport could not carry the call.
pub open spec fn transport_failure_message(detail: Seq<char>) -> Seq<char> {
    "HTTP request failed: "@ + detail
}

/// The message reported when a response arrived but its body could not be
/// read as text.
pub open spec fn body_read_failure_message(detail: Seq<char>) -> Seq<char> {
    "Failed to read response body: "@ + detail
}

/// Relies on uuid::Uuid::new_v4 and uuid's hyphenated Display rendering:
/// the first eight characters of the rendering of a fresh random identifier
/// are lower-case hexadecimal digits.
#[verifier::external_body]
fn random_id_prefix() -> (r: String)
    ensures
        valid_correlation_id(r@),
{
    let id = uuid::Uuid::new_v4().to_string();
    id[..8].to_string()
}

/// Turns a request description into an outbound call, or rejects it.
///
/// A recognized method (matched case-insensitively) yields an outbound call
/// under that verb, with a fresh correlation id, the identification headers
/// followed by the caller's headers, and the url and body unchanged. Any
/// other method is rejected at once, without a network call being described,
/// with a message that names it and no status.
pub fn plan_request(request: &ApiRequest) -> (r: Result<OutboundRequest, ApiError>)
    ensures
        match r {
            Ok(p) => {
                &&& method_verb(request.method@) == Some(p.method)
                &&& p.url == request.url
                &&& p.body == request.body
                &&& valid_correlation_id(p.correlation_id@)
                &&& p.headers@ == outbound_headers(
                    caller_header_map(request.headers),
                    p.correlation_id@,
                )
            },
            Err(e) => {
                &&& method_verb(request.method@) is None
                &&& e.message@ == unsupported_method_message(request.method@)
                &&& e.status is None
            },
        },
{
    let verb = match parse_method(request.method.as_str()) {
        Some(v) => v,
        None => {
            let message = String::from_str("Unsupported HTTP method: ").concat(
                request.method.as_str(),
            );
            return Err(ApiError { message, status: None });
        },
    };
    let id = random_id_prefix();
    let mut headers = HeaderMap::new();
    headers.insert(String::from_str("X-Proxy"), String::from_str("true"));
    headers.insert(String::from_str("X-Proxy-Request-ID"), id.clone());
    proof {
        assert(headers@ =~= identification_headers(id@));
    }
    match &request.headers {
        Some(caller) => {
            let pairs = caller.as_pairs();
            let n = pairs.len();
            let mut i: usize = 0;
            while i < n
                invariant
                    i <= n == pairs@.len(),
                    headers@ == extend_pairs(
                        identification_headers(id@),
                        pair_views(pairs@).take(i as int),
                    ),
                decreases n - i,
            {
                let p = &pairs[i];
                headers.insert(p.0.clone(), p.1.clone());
                proof {
                    assert(pair_views(pairs@).take(i as int + 1).drop_last() =~= pair_views(
                        pairs@,
                    ).take(i as int));
                    assert(pair_views(pairs@).take(i as int + 1).last() == (p.0@, p.1@));
                }
                i += 1;
            }
            proof {
                assert(pair_views(pairs@).take(n as int) =~= pair_views(pairs@));
                lemma_extend_pairs_union(identification_headers(id@), pair_views(pairs@));
                assert(pairs_to_map(pair_views(pairs@)) == caller@);
            }
        },
        None => {
            proof {
                assert(identification_headers(id@).union_prefer_right(
                    Map::<Seq<char>, Seq<char>>::empty(),
                ) =~= identification_headers(id@));
            }
        },
    }
    let url = request.url.clone();
    let body = match &request.body {
        Some(b) => Some(b.clone()),
        None => None,
    };
    Ok(OutboundRequest { method: verb, url, correlation_id: id, headers, body })
}

/// Turns the transport's outcome into the forwarded call's result.
///
/// A response whose body was read becomes a response description holding the
/// remote status, the remote's text headers augmented with the proxy marks,
/// and the body text unchanged. A response whose body could not be read
/// becomes an error that carries the received status. A transport failure
/// becomes an error without a status.
pub fn complete(outcome: TransportOutcome, correlation_id: String, elapsed_ms: u64) -> (r: Result<
    ApiResponse,
    ApiError,
>)
    ensures
        match outcome {
            TransportOutcome::Failed { detail } => match r {
                Err(e) => {
                    &&& e.message@ == transport_failure_message(detail@)
                    &&& e.status is None
                },
                Ok(_) => false,
            },
            TransportOutcome::Response { status, headers, body } => match body {
                Ok(text) => match r {
                    Ok(resp) => {
                        &&& resp.status == status
                        &&& resp.body == text
                        &&& resp.headers@ == proxied_headers(
                            text_header_map(optional_pair_views(headers@)),
                            correlation_id@,
                            elapsed_ms as int,
                        )
                    },
                    Err(_) => false,
                },
                Err(detail) => match r {
                    Err(e) => {
                        &&& e.message@ == body_read_failure_message(detail@)
                        &&& e.status == Some(status)
                    },
                    Ok(_) => false,
                },
            },
        },
{
    match outcome {
        TransportOutcome::Failed { detail } => {
            let message = String::from_str("HTTP request failed: ").concat(detail.as_str());
            Err(ApiError { message, status: None })
        },
        TransportOutcome::Response { status, headers, body } => match body {
            Ok(text) => {
                let mut h = collect_text_headers(&headers);
                h.insert(String::from_str("X-Proxied"), String::from_str("true"));
                h.insert(String::from_str("X-Proxy-Request-ID"), correlation_id);
                h.insert(String::from_str("X-Proxy-Elapsed-Ms"), u64_to_decimal(elapsed_ms));
                Ok(ApiResponse { status, headers: h, body: text })
            },
            Err(detail) => {
                let message = String::from_str("Failed to read response body: ").concat(
                    detail.as_str(),
                );
                Err(ApiError { message, status: Some(status) })
            },
        },
    }
}

/// Every successful response's headers mark the call as proxied and carry
/// its own eight-character correlation id and its elapsed time, whatever the
/// remote sent.
pub proof fn lemma_response_headers_identify_proxy(
    remote: Map<Seq<char>, Seq<char>>,
    id: Seq<char>,
    elapsed_ms: int,
)
    requires
        valid_correlation_id(id),
    ensures
        proxied_headers(remote, id, elapsed_ms).contains_pair("X-Proxied"@, "true"@),
        proxied_headers(remote, id, elapsed_ms).contains_pair("X-Proxy-Request-ID"@, id),
        proxied_headers(remote, id, elapsed_ms).contains_pair(
            "X-Proxy-Elapsed-Ms"@,
            decimal_of(elapsed_ms),
        ),
        id.len() == 8,
{
    reveal_strlit("X-Proxied");
    reveal_strlit("X-Proxy-Request-ID");
    reveal_strlit("X-Proxy-Elapsed-Ms");
    assert("X-Proxy-Request-ID"@[8] != "X-Proxy-Elapsed-Ms"@[8]);
    assert("X-Proxied"@.len() != "X-Proxy-Request-ID"@.len());
    assert("X-Proxied"@.len() != "X-Proxy-Elapsed-Ms"@.len());
}

/// Responses of calls with distinct correlation ids are tagged distinctly:
/// each carries its own id, so neither can be read as the other's.
pub proof fn lemma_distinct_ids_tag_distinctly(
    remote1: Map<Seq<char>, Seq<char>>,
    remote2: Map<Seq<char>, Seq<char>>,
    id1: Seq<char>,
    id2: Seq<char>,
    elapsed1: int,
    elapsed2: int,
)
    requires
        valid_correlation_id(id1),
        valid_correlation_id(id2),
        id1 != id2,
    ensures
        proxied_headers(remote1, id1, elapsed1)["X-Proxy-Request-ID"@] != proxied_headers(
            remote2,
            id2,
            elapsed2,
        )["X-Proxy-Request-ID"@],
{
    lemma_response_headers_identify_proxy(remote1, id1, elapsed1);
    lemma_response_headers_identify_proxy(remote2, id2, elapsed2);
}

/// A transport failure is never silent: its message is non-empty (and its
/// status absent, as `complete` ensures).
pub proof fn lemma_transport_failure_message_nonempty(detail: Seq<char>)
    ensures
        transport_failure_message(detail).len() > 0,
{
    reveal_strlit("HTTP request failed: ");
}

/// The rejection of an unrecognized method names that method: the message is
/// the fixed prefix of twenty-five characters followed by the method exactly.
pub proof fn lemma_unsupported_message_names_method(m: Seq<char>)
    ensures
        unsupported_method_message(m).len() == 25 + m.len(),
        unsupported_method_message(m).skip(25) =~= m,
{
    reveal_strlit("Unsupported HTTP method: ");
}

/// Projects a forwarded call's result onto the body text on success and the
/// bare message on failure, any status being discarded.
pub fn simplify_outcome(outcome: Result<ApiResponse, ApiError>) -> (r: Result<String, String>)
    ensures
        match outcome {
            Ok(resp) => r == Ok::<String, String>(resp.body),
            Err(e) => r == Err::<String, String>(e.message),
        },
{
    match outcome {
        Ok(resp) => Ok(resp.body),
        Err(e) => Err(e.message),
    }
}

} // verus!
