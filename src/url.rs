use vstd::prelude::*;
use crate::models::HttpUrlParameter;
use crate::text::{ends_with, has_prefix, has_suffix, join, starts_with};

verus! {

/// What the URL parser makes of `s`: `None` when it does not parse, else the
/// host of the URL as text, if it has one.
pub uninterp spec fn parsed_url(s: Seq<char>) -> Option<Option<Seq<char>>>;

/// Relies on `reqwest::Url::from_str` (the `url` crate's parser) and `Url::host`,
/// written out by its `Display`; a failure gives the parser's message.
#[verifier::external_body]
fn parse_url(s: &str) -> (r: Result<Option<String>, String>)
    ensures
        match r {
            Ok(Some(h)) => parsed_url(s@) == Some(Some(h@)),
            Ok(None) => parsed_url(s@) == Some(None::<Seq<char>>),
            Err(_) => parsed_url(s@) is None,
        },
{
    match <reqwest::Url as std::str::FromStr>::from_str(s) {
        Ok(u) => Ok(u.host().map(|h| h.to_string())),
        Err(e) => Err(e.to_string()),
    }
}

/// What `http::Uri` makes of `s`: `None` when it does not parse, else the URI written out again.
pub uninterp spec fn uri_text(s: Seq<char>) -> Option<Seq<char>>;

/// Relies on `http::Uri::from_str` and the URI's `Display`; a failure gives the parser's message.
#[verifier::external_body]
fn parse_uri(s: &str) -> (r: Result<String, String>)
    ensures
        match r {
            Ok(u) => uri_text(s@) == Some(u@),
            Err(_) => uri_text(s@) is None,
        },
{
    match <http::Uri as std::str::FromStr>::from_str(s) {
        Ok(u) => Ok(u.to_string()),
        Err(e) => Err(e.to_string()),
    }
}

/// The start of the message for a URL that does not parse.
pub open spec fn url_error_prefix(url: Seq<char>) -> Seq<char> {
    "Failed to parse URL \""@ + url + "\": "@
}

/// Whether `url` is one a request can go to: it parses as a URI, and that
/// URI written out parses as a URL.
pub open spec fn url_accepted(url: Seq<char>) -> bool {
    uri_text(url) matches Some(u) && parsed_url(u) is Some
}

/// Checks that a request can go to `url`: gives the URI written out, or the
/// message that the response records.
pub fn check_url(url: &str) -> (r: Result<String, String>)
    ensures
        r is Ok <==> url_accepted(url@),
        r matches Ok(u) ==> uri_text(url@) == Some(u@),
        r matches Err(m) ==> has_prefix(m@, url_error_prefix(url@)),
{
    proof {
        reveal_strlit("Failed to parse URL \"");
        reveal_strlit("\": ");
    }
    let head = join("Failed to parse URL \"", url).concat("\": ");
    proof {
        assert(head@ == url_error_prefix(url@));
    }
    match parse_uri(url) {
        Ok(u) => match parse_url(u.as_str()) {
            Ok(_) => Ok(u),
            Err(e) => {
                let m = join(head.as_str(), e.as_str());
                proof {
                    assert(m@.subrange(0, head@.len() as int) =~= head@);
                }
                Err(m)
            },
        },
        Err(e) => {
            let m = join(head.as_str(), e.as_str());
            proof {
                assert(m@.subrange(0, head@.len() as int) =~= head@);
            }
            Err(m)
        },
    }
}

/// Whether a host lies under a top-level domain that is served over HTTPS only.
pub open spec fn https_only_host(h: Seq<char>) -> bool {
    has_suffix(h, ".app"@) || has_suffix(h, ".dev"@) || has_suffix(h, ".page"@)
}

/// `url` with a scheme: kept as it is when it has one, else `https://` for a
/// host under `.app`, `.dev` or `.page`, and `http://` for any other.
pub open spec fn with_scheme(url: Seq<char>) -> Seq<char> {
    if has_prefix(url, "http://"@) || has_prefix(url, "https://"@) {
        url
    } else {
        match parsed_url("http://"@ + url) {
            Some(host) => scheme_for_host(url, host),
            None => scheme_for_host(url, None),
        }
    }
}

/// The scheme given to a URL without one, from the host that the parser found
/// in it: `https://` for a host under `.app`, `.dev` or `.page`, else `http://`.
pub open spec fn scheme_for_host(url: Seq<char>, host: Option<Seq<char>>) -> Seq<char> {
    match host {
        Some(h) if https_only_host(h) => "https://"@ + url,
        _ => "http://"@ + url,
    }
}

/// Prefixes `url_str` with the scheme that its host calls for.
pub fn proto_for_host(url_str: &str, host: Option<&str>) -> (r: String)
    ensures
        r@ == scheme_for_host(
            url_str@,
            match host {
                Some(h) => Some(h@),
                None => None,
            },
        ),
{
    match host {
        Some(h) => {
            if ends_with(h, ".app") || ends_with(h, ".dev") || ends_with(h, ".page") {
                join("https://", url_str)
            } else {
                join("http://", url_str)
            }
        },
        None => join("http://", url_str),
    }
}

/// Gives `url_str` a scheme when it lacks one.
pub fn ensure_proto(url_str: &str) -> (r: String)
    ensures
        r@ == with_scheme(url_str@),
        has_prefix(r@, "http://"@) || has_prefix(r@, "https://"@),
{
    proof {
        reveal_strlit("http://");
        reveal_strlit("https://");
    }
    if starts_with(url_str, "http://") || starts_with(url_str, "https://") {
        return url_str.to_owned();
    }
    let parseable_url = join("http://", url_str);
    let r = match parse_url(parseable_url.as_str()) {
        Ok(Some(h)) => proto_for_host(url_str, Some(h.as_str())),
        _ => proto_for_host(url_str, None),
    };
    proof {
        assert(("https://"@ + url_str@).subrange(0, 8) =~= "https://"@);
        assert(("http://"@ + url_str@).subrange(0, 7) =~= "http://"@);
    }
    r
}

/// Whether a query parameter is sent: it is enabled and has a name.
pub open spec fn sends_param(p: HttpUrlParameter) -> bool {
    p.enabled && p.name@.len() > 0
}

/// The query of a request: the name and value of each parameter that is sent, in order.
pub open spec fn query_of(ps: Seq<HttpUrlParameter>) -> Seq<(Seq<char>, Seq<char>)>
    decreases ps.len(),
{
    if ps.len() == 0 {
        Seq::empty()
    } else {
        let rest = query_of(ps.drop_last());
        if sends_param(ps.last()) {
            rest.push((ps.last().name@, ps.last().value@))
        } else {
            rest
        }
    }
}

/// A list of pairs of strings, as text.
pub open spec fn pairs_view(v: Seq<(String, String)>) -> Seq<(Seq<char>, Seq<char>)> {
    v.map_values(|p: (String, String)| (p.0@, p.1@))
}

/// The query parameters that a request sends.
pub fn query_params(params: &Vec<HttpUrlParameter>) -> (r: Vec<(String, String)>)
    ensures
        pairs_view(r@) == query_of(params@),
{
    let mut out: Vec<(String, String)> = Vec::new();
    let mut i: usize = 0;
    while i < params.len()
        invariant
            i <= params.len(),
            pairs_view(out@) == query_of(params@.subrange(0, i as int)),
        decreases params.len() - i,
    {
        let p = &params[i];
        proof {
            assert(params@.subrange(0, i + 1).drop_last() =~= params@.subrange(0, i as int));
        }
        if p.enabled && !p.name.as_str().is_empty() {
            let pair = (p.name.clone(), p.value.clone());
            out.push(pair);
            proof {
                assert(pairs_view(out@) =~= pairs_view(out@.drop_last()).push((p.name@, p.value@)));
            }
        }
        i = i + 1;
    }
    proof {
        assert(params@.subrange(0, i as int) =~= params@);
    }
    out
}

} // verus!
