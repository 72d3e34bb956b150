use vstd::prelude::*;
use crate::body::{build_body, fit_headers_to_body, headers_for_body, opt_view, plans_body, BodyPlan};
use crate::headers::{outbound_headers, request_headers, unique_names};
use crate::models::HttpRequest;
use crate::url::{ensure_proto, pairs_view, query_of, query_params, with_scheme};

verus! {

/// `s` in upper case, as `str::to_uppercase` writes it.
pub uninterp spec fn upper_of(s: Seq<char>) -> Seq<char>;

/// Relies on `str::to_uppercase`: the upper-case form of `s`, by Unicode's mapping.
#[verifier::external_body]
fn to_upper(s: &str) -> (r: String)
    ensures
        r@ == upper_of(s@),
{
    s.to_uppercase()
}

/// A request ready for the transport: where it goes, how, and what it carries.
#[derive(Debug, Clone)]
pub struct OutboundRequest {
    /// The URL with its scheme.
    pub url: String,
    /// The method in upper case.
    pub method: String,
    /// Query parameters, added to the URL in order.
    pub query: Vec<(String, String)>,
    /// Headers, with unique lower-case names.
    pub headers: Vec<(String, String)>,
    pub body: BodyPlan,
}

/// Builds what a rendered request sends: its URL with a scheme, its method, the
/// query parameters and headers that are sent, and its body.
pub fn prepare_request(request: &HttpRequest) -> (r: OutboundRequest)
    ensures
        r.url@ == with_scheme(request.url@),
        r.method@ == upper_of(request.method@),
        pairs_view(r.query@) == query_of(request.url_parameters@),
        plans_body(r.body, opt_view(request.body_type), request.body@),
        pairs_view(r.headers@) == headers_for_body(outbound_headers(request.headers@), r.body),
        unique_names(pairs_view(r.headers@)),
{
    let url = ensure_proto(request.url.as_str());
    let method = to_upper(request.method.as_str());
    let query = query_params(&request.url_parameters);
    let mut headers = request_headers(&request.headers);
    let body = build_body(&request.body_type, &request.body);
    fit_headers_to_body(&mut headers, &body);
    OutboundRequest { url, method, query, headers, body }
}

/// Name of the file that holds a response body: the response's id, or a fresh
/// id when the response has none yet.
pub fn body_file_name(response_id: &str, fresh_id: String) -> (r: String)
    ensures
        r@ == if response_id@.len() == 0 {
            fresh_id@
        } else {
            response_id@
        },
{
    if response_id.is_empty() {
        fresh_id
    } else {
        response_id.to_owned()
    }
}

} // verus!
