//! The request router: method/path dispatch, the body-size gate, and the
//! mapping from resolver responses to HTTP replies.

use vstd::prelude::*;

use crate::json::{encode_response, response_json};
use crate::schema::{ResponseDetails, ResponseView};
use crate::score::{score_text, zero_score_text};

verus! {

/// The largest request body `POST /query` accepts, in bytes: 64 KiB.  The
/// gate reads the body's size hint; a hint above the limit — or no upper
/// hint at all — rejects the request before any byte is read.
pub const BODY_LIMIT: u64 = 65536;

/// Switches for the two places where the service's long-standing behaviour
/// and the presumably intended one differ.  The defaults keep the
/// long-standing behaviour, which clients may depend on.
pub struct ServiceOptions {
    /// `true`: `GET /isalive` answers `200`.  `false` (the default): it
    /// answers `500` although its body reports `OK`.
    pub liveness_ok_status: bool,
    /// `true`: the search is scoped by the category in the request body.
    /// `false` (the default): by the category in the service configuration;
    /// the request's category is accepted and ignored.
    pub category_from_request: bool,
}

impl Default for ServiceOptions {
    /// The long-standing behaviour on both counts.
    fn default() -> (r: ServiceOptions)
        ensures
            !r.liveness_ok_status,
            !r.category_from_request,
    {
        ServiceOptions { liveness_ok_status: false, category_from_request: false }
    }
}

/// A finished HTTP answer: a status code and the JSON body to send.
pub struct HttpReply {
    pub status: u16,
    pub body: String,
}

/// Where a request goes: straight to a finished reply, or on to the query
/// pipeline (the body still has to be read and parsed).
pub enum Routed {
    Reply(HttpReply),
    Query,
}

/// The body answering an oversized request.
pub open spec fn too_large_view() -> ResponseView {
    ResponseView { status: "KO"@, query: None, data: "body too big"@, score: score_text(0) }
}

/// The body answering a request whose body is not a well-formed query
/// object.
pub open spec fn invalid_body_view() -> ResponseView {
    ResponseView {
        status: "KO"@,
        query: None,
        data: "invalid json body"@,
        score: score_text(0),
    }
}

/// The liveness body: status `OK`, no query, a fixed message.
pub open spec fn liveness_view() -> ResponseView {
    ResponseView { status: "OK"@, query: None, data: "service is up"@, score: score_text(0) }
}

/// The catch-all body for every unknown route.
pub open spec fn catch_all_view() -> ResponseView {
    ResponseView {
        status: "KO"@,
        query: None,
        data: "ensure you post to the /query endpoint with valid json"@,
        score: score_text(0),
    }
}

/// Whether a body size hint exceeds the limit: a missing upper bound counts
/// as unbounded and is rejected.
pub open spec fn hint_exceeds_limit(hint: Option<u64>) -> bool {
    match hint {
        Some(n) => n > BODY_LIMIT,
        None => true,
    }
}

/// Whether `method` and `path` address the query endpoint.
pub open spec fn is_query_route(method: Seq<char>, path: Seq<char>) -> bool {
    method == "POST"@ && path == "/query"@
}

/// Whether `method` and `path` address the liveness endpoint.
pub open spec fn is_liveness_route(method: Seq<char>, path: Seq<char>) -> bool {
    method == "GET"@ && path == "/isalive"@
}

/// Whether `a` and `b` spell the same characters.
fn str_eq(a: &str, b: &str) -> (r: bool)
    ensures
        r == (a@ == b@),
{
    let len = a.unicode_len();
    if len != b.unicode_len() {
        return false;
    }
    let mut i: usize = 0;
    while i < len
        invariant
            i <= len,
            len == a@.len() == b@.len(),
            forall|k: int| 0 <= k < i ==> a@[k] == b@[k],
        decreases len - i,
    {
        if a.get_char(i) != b.get_char(i) {
            return false;
        }
        i = i + 1;
    }
    proof {
        assert(a@ =~= b@);
    }
    true
}

/// Builds the reply carrying `r`: the JSON encoding of `r` as body, paired
/// with `status`.
fn reply_with(status: u16, r: &ResponseDetails) -> (reply: HttpReply)
    ensures
        reply.status == status,
        reply.body@ == response_json(r@),
{
    HttpReply { status, body: encode_response(r) }
}

/// Dispatches a request.  `POST /query` passes the size gate and goes on to
/// the pipeline, or is refused `413` on an oversized hint; `GET /isalive`
/// answers the liveness body (`500` by default, `200` under the option);
/// every other route answers `404` with the catch-all body.
pub fn route(method: &str, path: &str, body_size_hint: Option<u64>, options: &ServiceOptions) -> (r:
    Routed)
    ensures
        is_query_route(method@, path@) && hint_exceeds_limit(body_size_hint) ==> (r matches
            Routed::Reply(reply) && reply.status == 413 && reply.body@ == response_json(
            too_large_view(),
        )),
        is_query_route(method@, path@) && !hint_exceeds_limit(body_size_hint) ==> r is Query,
        !is_query_route(method@, path@) && is_liveness_route(method@, path@) ==> (r matches
            Routed::Reply(reply) && reply.status == (if options.liveness_ok_status {
            200u16
        } else {
            500u16
        }) && reply.body@ == response_json(liveness_view())),
        !is_query_route(method@, path@) && !is_liveness_route(method@, path@) ==> (r matches
            Routed::Reply(reply) && reply.status == 404 && reply.body@ == response_json(
            catch_all_view(),
        )),
{
    if str_eq(method, "POST") && str_eq(path, "/query") {
        let exceeds = match body_size_hint {
            Some(n) => n > BODY_LIMIT,
            None => true,
        };
        if exceeds {
            let resp = ResponseDetails {
                status: String::from_str("KO"),
                query: None,
                data: String::from_str("body too big"),
                score: zero_score_text(),
            };
            Routed::Reply(reply_with(413, &resp))
        } else {
            Routed::Query
        }
    } else if str_eq(method, "GET") && str_eq(path, "/isalive") {
        let resp = ResponseDetails {
            status: String::from_str("OK"),
            query: None,
            data: String::from_str("service is up"),
            score: zero_score_text(),
        };
        let status: u16 = if options.liveness_ok_status {
            200
        } else {
            500
        };
        Routed::Reply(reply_with(status, &resp))
    } else {
        let resp = ResponseDetails {
            status: String::from_str("KO"),
            query: None,
            data: String::from_str("ensure you post to the /query endpoint with valid json"),
            score: zero_score_text(),
        };
        Routed::Reply(reply_with(404, &resp))
    }
}

/// The reply for a body that failed to parse as a query object: `400` with
/// the invalid-body answer.
pub fn invalid_body_reply() -> (reply: HttpReply)
    ensures
        reply.status == 400,
        reply.body@ == response_json(invalid_body_view()),
{
    let resp = ResponseDetails {
        status: String::from_str("KO"),
        query: None,
        data: String::from_str("invalid json body"),
        score: zero_score_text(),
    };
    reply_with(400, &resp)
}

/// The reply carrying a finished resolver response: its JSON encoding, under
/// `500` for a `KO` status and `200` otherwise.
pub fn query_reply(resp: &ResponseDetails) -> (reply: HttpReply)
    ensures
        reply.body@ == response_json(resp@),
        reply.status == (if resp@.is_ko() {
            500u16
        } else {
            200u16
        }),
{
    let status: u16 = if str_eq(resp.status.as_str(), "KO") {
        500
    } else {
        200
    };
    reply_with(status, resp)
}

/// The category the search is scoped by: the configured one by default, the
/// request's under the option.
pub fn search_category(
    options: &ServiceOptions,
    configured: &str,
    requested: &str,
) -> (r: String)
    ensures
        options.category_from_request ==> r@ == requested@,
        !options.category_from_request ==> r@ == configured@,
{
    if options.category_from_request {
        String::from_str(requested)
    } else {
        String::from_str(configured)
    }
}

} // verus!
