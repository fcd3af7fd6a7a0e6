//! The interception decision: which requests are diverted to the rendering
//! service, with which target URL and which outbound headers.

use vstd::prelude::*;

use crate::builder::CfgView;
use crate::builder::Prerender;
use crate::consts::crawler_signatures;
use crate::consts::crawler_signatures_spec;
use crate::consts::ignored_extensions;
use crate::consts::ignored_extensions_spec;
use crate::error::PrerenderError;
use crate::headers::drop_host_headers;
use crate::headers::lookup_header;
use crate::headers::Headers;
use crate::request::InboundRequest;
use crate::request::Method;
use crate::request::ReqView;
use crate::strings::contains_substr;
use crate::strings::find_substr;
use crate::strings::first_index;
use crate::strings::lower_seq;
use crate::strings::str_contains;
use crate::strings::str_contains_fold;
use crate::strings::trim;
use crate::strings::trim_spec;
use vstd::pervasive::unreached;

verus! {

/// The method is `GET` or `HEAD`; no other request is ever diverted.
pub open spec fn is_get_or_head(m: Method) -> bool {
    m == Method::Get || m == Method::Head
}

/// The user-agent value contains some crawler signature, ASCII
/// case-insensitively.
pub open spec fn ua_is_crawler(ua: Seq<char>) -> bool {
    exists|i: int|
        0 <= i < crawler_signatures_spec().len() && contains_substr(
            lower_seq(ua),
            lower_seq(#[trigger] crawler_signatures_spec()[i]),
        )
}

/// The path-and-query string contains some ignored-extension marker, as a
/// plain substring anywhere in it.
pub open spec fn has_ignored_extension(pq: Seq<char>) -> bool {
    exists|i: int|
        0 <= i < ignored_extensions_spec().len() && contains_substr(
            pq,
            #[trigger] ignored_extensions_spec()[i],
        )
}

/// The interception policy: a request is diverted exactly when its method is
/// `GET` or `HEAD`, it carries a user-agent that matches a crawler
/// signature, and its path and query contain no ignored-extension marker.
pub open spec fn spec_should_prerender(r: ReqView) -> bool {
    &&& is_get_or_head(r.method)
    &&& match lookup_header(r.headers, "User-Agent"@) {
        Some(ua) => ua_is_crawler(ua),
        None => false,
    }
    &&& match r.path_and_query {
        Some(pq) => !has_ignored_extension(pq),
        None => true,
    }
}

/// Decides whether the request should be diverted to the rendering service.
pub fn should_prerender(req: &InboundRequest) -> (b: bool)
    ensures
        b == spec_should_prerender(req@),
{
    match req.method {
        Method::Get | Method::Head => {},
        _ => {
            return false;
        },
    }
    let ua = match req.headers.get("User-Agent") {
        Some(v) => v,
        None => {
            return false;
        },
    };
    let sigs = crawler_signatures();
    let n = sigs.len();
    let mut is_crawler = false;
    let mut i: usize = 0;
    while i < n
        invariant
            n == crawler_signatures_spec().len(),
            n == sigs@.len(),
            forall|k: int| 0 <= k < n ==> sigs@[k]@ == crawler_signatures_spec()[k],
            i <= n,
            lookup_header(req@.headers, "User-Agent"@) == Some(ua@),
            is_crawler == exists|k: int|
                0 <= k < i && contains_substr(
                    lower_seq(ua@),
                    lower_seq(#[trigger] crawler_signatures_spec()[k]),
                ),
        decreases n - i,
    {
        if str_contains_fold(ua.as_str(), sigs[i]) {
            assert(contains_substr(
                lower_seq(ua@),
                lower_seq(crawler_signatures_spec()[i as int]),
            ));
            is_crawler = true;
        }
        i += 1;
    }
    if let Some(pq) = &req.path_and_query {
        let exts = ignored_extensions();
        let m = exts.len();
        let mut j: usize = 0;
        while j < m
            invariant
                m == ignored_extensions_spec().len(),
                m == exts@.len(),
                forall|k: int| 0 <= k < m ==> exts@[k]@ == ignored_extensions_spec()[k],
                j <= m,
                req@.path_and_query == Some(pq@),
                forall|k: int|
                    0 <= k < j ==> !contains_substr(pq@, #[trigger] ignored_extensions_spec()[k]),
            decreases m - j,
        {
            if str_contains(pq.as_str(), exts[j]) {
                assert(contains_substr(pq@, ignored_extensions_spec()[j as int]));
                return false;
            }
            j += 1;
        }
    }
    is_crawler
}

/// A request whose method is neither `GET` nor `HEAD` is never diverted,
/// whatever its user-agent and path.
pub proof fn lemma_non_get_head_passes_through(r: ReqView)
    requires
        !is_get_or_head(r.method),
    ensures
        !spec_should_prerender(r),
{
}

/// A `GET` or `HEAD` request that carries a user-agent matching a crawler
/// signature, and whose path and query contain no ignored-extension marker,
/// is diverted.  (The method must qualify: with any other method the
/// user-agent does not matter, see `lemma_non_get_head_passes_through`.)
pub proof fn lemma_crawler_on_clean_path_is_diverted(r: ReqView, ua: Seq<char>)
    requires
        is_get_or_head(r.method),
        lookup_header(r.headers, "User-Agent"@) == Some(ua),
        ua_is_crawler(ua),
        match r.path_and_query {
            Some(pq) => !has_ignored_extension(pq),
            None => true,
        },
    ensures
        spec_should_prerender(r),
{
}

/// A request whose path and query contain an ignored-extension marker is
/// never diverted, even when its user-agent matches a crawler signature.
pub proof fn lemma_ignored_extension_passes_through(r: ReqView, pq: Seq<char>)
    requires
        r.path_and_query == Some(pq),
        has_ignored_extension(pq),
    ensures
        !spec_should_prerender(r),
{
}

/// `v` up to (excluding) its first comma; all of `v` when it has none.
pub open spec fn before_comma(v: Seq<char>) -> Seq<char> {
    if contains_substr(v, ","@) {
        v.subrange(0, first_index(v, ","@))
    } else {
        v
    }
}

/// The scheme the request's own URI offers: its parsed scheme, or `http`
/// when the framework parsed none.
pub open spec fn uri_scheme_or_default(r: ReqView) -> Seq<char> {
    match r.scheme {
        Some(s) => s,
        None => "http"@,
    }
}

/// The scheme of the reconstructed URL, most specific source first: the
/// first entry of an `X-Forwarded-Proto` chain, trimmed; else the token of a
/// `cf-visitor` value from its first `http` up to (excluding) the value's
/// final character; else the URI's own scheme; else `http`.
pub open spec fn resolved_scheme(r: ReqView) -> Seq<char> {
    match lookup_header(r.headers, "X-Forwarded-Proto"@) {
        Some(v) => trim_spec(before_comma(v)),
        None => match lookup_header(r.headers, "cf-visitor"@) {
            Some(v) => if contains_substr(v, "http"@) {
                v.subrange(first_index(v, "http"@), v.len() - 1)
            } else {
                uri_scheme_or_default(r)
            },
            None => uri_scheme_or_default(r),
        },
    }
}

/// The host of the reconstructed URL, first source that is present: the
/// URI's own host, the `X-Forwarded-Host` header, the `Host` header.
pub open spec fn resolved_host(r: ReqView) -> Option<Seq<char>> {
    match r.host {
        Some(h) => Some(h),
        None => match lookup_header(r.headers, "X-Forwarded-Host"@) {
            Some(v) => Some(v),
            None => lookup_header(r.headers, "Host"@),
        },
    }
}

/// Some source determines a host for the request; the hosting layer must
/// guarantee this before a diverted request's URL is built.
pub open spec fn host_resolvable(r: ReqView) -> bool {
    resolved_host(r) is Some
}

/// The request's path with its query, verbatim; empty when the request has
/// none.
pub open spec fn path_query_or_empty(r: ReqView) -> Seq<char> {
    match r.path_and_query {
        Some(p) => p,
        None => Seq::empty(),
    }
}

/// The target URL handed to the rendering service: the base URL, a single
/// separating slash, the fixed `render` segment, and the reconstructed
/// original URL as the `url` query parameter, embedded without any
/// percent-encoding.
pub open spec fn spec_target_url(base: Seq<char>, r: ReqView) -> Seq<char> {
    let sep: Seq<char> = if base.len() > 0 && base[base.len() - 1] == '/' {
        Seq::empty()
    } else {
        "/"@
    };
    base + sep + "render?url="@ + resolved_scheme(r) + "://"@ + resolved_host(r)->0
        + path_query_or_empty(r)
}

/// Building the target URL is deterministic and pure: any two strings
/// built for the same base URL and the same request are byte-identical, so
/// repeating the construction yields the same string.
pub proof fn lemma_target_url_deterministic(
    base: Seq<char>,
    r: ReqView,
    u1: Seq<char>,
    u2: Seq<char>,
)
    requires
        u1 == spec_target_url(base, r),
        u2 == spec_target_url(base, r),
    ensures
        u1 == u2,
{
}

/// The scheme of the reconstructed URL (see `resolved_scheme`).
fn resolve_scheme(req: &InboundRequest) -> (s: String)
    ensures
        s@ == resolved_scheme(req@),
{
    if let Some(xfp) = req.headers.get("X-Forwarded-Proto") {
        let part: &str = match find_substr(xfp.as_str(), ",", false) {
            Some(i) => xfp.as_str().substring_char(0, i),
            None => xfp.as_str(),
        };
        return String::from_str(trim(part));
    }
    if let Some(cf) = req.headers.get("cf-visitor") {
        if let Some(i) = find_substr(cf.as_str(), "http", false) {
            proof {
                reveal_strlit("http");
            }
            let len = cf.as_str().unicode_len();
            return String::from_str(cf.as_str().substring_char(i, len - 1));
        }
    }
    match &req.scheme {
        Some(s) => s.clone(),
        None => String::from_str("http"),
    }
}

/// The host of the reconstructed URL (see `resolved_host`).
fn resolve_host<'a>(req: &'a InboundRequest) -> (h: &'a String)
    requires
        host_resolvable(req@),
    ensures
        resolved_host(req@) == Some(h@),
{
    if let Some(h) = &req.host {
        return h;
    }
    if let Some(v) = req.headers.get("X-Forwarded-Host") {
        return v;
    }
    match req.headers.get("Host") {
        Some(v) => v,
        None => unreached(),
    }
}

/// The headers sent along with the outbound fetch: the inbound headers
/// without `Host` when forwarding is on, nothing otherwise; then
/// `Accept-Encoding: gzip` appended (it may coexist with a forwarded
/// value); then the configured token under `X-Prerender-Token`.
pub open spec fn spec_outbound_headers(cfg: CfgView, r: ReqView) -> Seq<(Seq<char>, Seq<char>)> {
    let base: Seq<(Seq<char>, Seq<char>)> = if cfg.forward_headers {
        drop_host_headers(r.headers)
    } else {
        Seq::empty()
    };
    let with_encoding = base.push(("Accept-Encoding"@, "gzip"@));
    match cfg.token {
        Some(t) => with_encoding.push(("X-Prerender-Token"@, t)),
        None => with_encoding,
    }
}

/// Builds the header set for the outbound fetch (see
/// `spec_outbound_headers`), fresh for each request.
pub fn build_outbound_headers(cfg: &Prerender, req: &InboundRequest) -> (h: Headers)
    ensures
        h@ == spec_outbound_headers(cfg@, req@),
{
    let mut h = if cfg.forward_headers {
        req.headers.without_host()
    } else {
        Headers::new()
    };
    h.append("Accept-Encoding", "gzip");
    if let Some(t) = &cfg.token {
        h.append("X-Prerender-Token", t.as_str());
    }
    h
}

/// What the middleware does with one request; both outcomes are terminal.
pub enum Decision {
    /// Hand the request to the next stage unchanged.
    PassThrough,
    /// Fetch `url` from the rendering service with `headers` and substitute
    /// the response.
    Render { url: String, headers: Headers },
}

/// The verified core of the interception middleware: the immutable shared
/// configuration, and the per-request decision over it.
pub struct PrerenderMiddleware {
    pub inner: Prerender,
}

impl PrerenderMiddleware {
    /// Wraps the configuration into the middleware core.
    pub fn new(inner: Prerender) -> (m: PrerenderMiddleware)
        ensures
            m.inner == inner,
    {
        PrerenderMiddleware { inner }
    }

    /// Builds the URL under which the rendering service is asked for a
    /// snapshot of the request's original URL.  Total for every request
    /// with a determinable host; scheme and path degrade to documented
    /// defaults.
    pub fn prepare_build_api_url(service_url: &str, req: &InboundRequest) -> (r: String)
        requires
            host_resolvable(req@),
        ensures
            r@ == spec_target_url(service_url@, req@),
    {
        let mut out = String::from_str(service_url);
        let blen = service_url.unicode_len();
        let ends_slash = blen > 0 && service_url.get_char(blen - 1) == '/';
        if !ends_slash {
            out.append("/");
        }
        out.append("render?url=");
        let scheme = resolve_scheme(req);
        out.append(scheme.as_str());
        out.append("://");
        let host = resolve_host(req);
        out.append(host.as_str());
        if let Some(pq) = &req.path_and_query {
            out.append(pq.as_str());
        }
        proof {
            assert(out@ =~= spec_target_url(service_url@, req@));
        }
        out
    }

    /// Decides one request: pass it through untouched, or divert it, with
    /// the exact target URL and outbound headers to use.  The hosting layer
    /// must guarantee a determinable host before calling (it may panic on a
    /// diverted request without one, as the policy leaves that case
    /// undefined).
    pub fn decide(&self, req: &InboundRequest) -> (d: Decision)
        requires
            spec_should_prerender(req@) ==> host_resolvable(req@),
        ensures
            match d {
                Decision::PassThrough => !spec_should_prerender(req@),
                Decision::Render { url, headers } => {
                    &&& spec_should_prerender(req@)
                    &&& url@ == spec_target_url(self.inner@.service_url, req@)
                    &&& headers@ == spec_outbound_headers(self.inner@, req@)
                },
            },
    {
        if !should_prerender(req) {
            return Decision::PassThrough;
        }
        let url = Self::prepare_build_api_url(self.inner.service_url.as_str(), req);
        let headers = build_outbound_headers(&self.inner, req);
        Decision::Render { url, headers }
    }
}

/// The response substituted for a diverted request: status 200, content
/// type `text/html`, and the fetched bytes untouched, whatever the
/// rendering service answered.
#[derive(Debug)]
pub struct RenderedResponse {
    pub status: u16,
    pub content_type: String,
    pub body: Vec<u8>,
}

/// Wraps the bytes fetched from the rendering service into the substituted
/// response: always status 200 with content type `text/html` and the body
/// verbatim.
pub fn rendered_response(body: Vec<u8>) -> (r: RenderedResponse)
    ensures
        r.status == 200,
        r.content_type@ == "text/html"@,
        r.body@ == body@,
{
    RenderedResponse { status: 200, content_type: String::from_str("text/html"), body }
}

/// Translates the outcome of the outbound fetch, whatever it was, into the
/// middleware's answer: a fetched body becomes the substituted response, a
/// failure message becomes the fetch error — no retry, no fallback to the
/// next stage.
pub fn render_outcome(fetch: Result<Vec<u8>, String>) -> (r: Result<
    RenderedResponse,
    PrerenderError,
>)
    ensures
        match fetch {
            Ok(body) => r matches Ok(resp) && resp.status == 200 && resp.content_type@
                == "text/html"@ && resp.body@ == body@,
            Err(m) => r matches Err(e) && e matches PrerenderError::FetchFailed { message }
                && message@ == m@,
        },
{
    match fetch {
        Ok(body) => Ok(rendered_response(body)),
        Err(message) => Err(PrerenderError::FetchFailed { message }),
    }
}

} // verus!
