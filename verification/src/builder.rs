//! The immutable interception configuration and its builder.

use vstd::prelude::*;

use crate::error::PrerenderError;

verus! {

/// The normalized serialization that parsing `s` as an absolute URL yields,
/// or `None` when `s` does not parse.  A pure function of `s`.
pub uninterp spec fn parse_base_url(s: Seq<char>) -> Option<Seq<char>>;

/// Relies on `url::Url::parse`, which accepts exactly the absolute URLs,
/// and on `url::Url::to_string`, which returns the parsed URL's normalized
/// serialization; both depend on the input string alone.
#[verifier::external_body]
fn parse_service_url(s: &str) -> (r: Option<String>)
    ensures
        r is Some <==> parse_base_url(s@) is Some,
        r matches Some(u) ==> Some(u@) == parse_base_url(s@),
{
    match url::Url::parse(s) {
        Ok(u) => Some(u.to_string()),
        Err(_) => None,
    }
}

/// The canonical serialization of the public prerender.io endpoint.
pub open spec fn prerender_io_url() -> Seq<char> {
    "https://service.prerender.io/"@
}

/// The mathematical view of the interception configuration.
pub ghost struct CfgView {
    pub service_url: Seq<char>,
    pub token: Option<Seq<char>>,
    pub forward_headers: bool,
}

/// The immutable interception configuration: the rendering service's base
/// URL (validated at construction, never re-validated per request), the
/// optional access token, and whether inbound headers are forwarded.  Built
/// once and shared read-only across requests.
#[derive(Debug, Clone)]
pub struct Prerender {
    pub service_url: String,
    pub token: Option<String>,
    pub forward_headers: bool,
}

impl View for Prerender {
    type V = CfgView;

    open spec fn view(&self) -> CfgView {
        CfgView {
            service_url: self.service_url@,
            token: self.token.deep_view(),
            forward_headers: self.forward_headers,
        }
    }
}

/// Builder for the interception configuration.
pub struct PrerenderBuilder {
    pub forward_headers: bool,
}

impl PrerenderBuilder {
    /// Directs diverted requests to the public prerender.io endpoint,
    /// authenticated with `token`.
    pub fn use_prerender_io(self, token: String) -> (p: Prerender)
        ensures
            p@.service_url == prerender_io_url(),
            p@.token == Some(token@),
            p@.forward_headers == self.forward_headers,
    {
        Prerender {
            service_url: String::from_str("https://service.prerender.io/"),
            token: Some(token),
            forward_headers: self.forward_headers,
        }
    }

    /// Directs diverted requests to a custom rendering service.  Succeeds
    /// exactly when the URL parses as an absolute URL, storing its
    /// normalized form; fails with `InvalidUrl` otherwise.
    pub fn use_custom_prerender_url(self, prerender_service_url: &str) -> (r: Result<
        Prerender,
        PrerenderError,
    >)
        ensures
            match r {
                Ok(p) => {
                    &&& Some(p@.service_url) == parse_base_url(prerender_service_url@)
                    &&& p@.token is None
                    &&& p@.forward_headers == self.forward_headers
                },
                Err(e) => parse_base_url(prerender_service_url@) is None && e is InvalidUrl,
            },
    {
        match parse_service_url(prerender_service_url) {
            Some(normalized) => Ok(
                Prerender {
                    service_url: normalized,
                    token: None,
                    forward_headers: self.forward_headers,
                },
            ),
            None => Err(PrerenderError::InvalidUrl),
        }
    }

    /// Sets the middleware to forward the inbound request's headers to the
    /// rendering service.
    pub fn forward_headers(self) -> (b: PrerenderBuilder)
        ensures
            b.forward_headers,
    {
        PrerenderBuilder { forward_headers: true }
    }
}

impl Prerender {
    /// Starts a builder with the defaults: headers are not forwarded.
    pub fn build() -> (b: PrerenderBuilder)
        ensures
            !b.forward_headers,
    {
        PrerenderBuilder { forward_headers: false }
    }

    /// Starts a builder with the defaults: headers are not forwarded.
    pub fn builder() -> (b: PrerenderBuilder)
        ensures
            !b.forward_headers,
    {
        Prerender::build()
    }
}

} // verus!
