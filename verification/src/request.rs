//! The inbound-request model: the HTTP method, the URI parts the hosting
//! framework parsed, and the header multimap.

use vstd::prelude::*;

use crate::headers::Headers;

verus! {

/// An HTTP request method.  Only `Get` and `Head` are ever diverted; every
/// other method passes through, so they can share one variant-per-name
/// listing with a catch-all for extension methods.
#[derive(Clone, Copy, PartialEq, Eq, Structural, Debug)]
pub enum Method {
    Get,
    Head,
    Post,
    Put,
    Delete,
    Connect,
    Options,
    Trace,
    Patch,
    Other,
}

/// The mathematical view of an inbound request.
pub ghost struct ReqView {
    pub method: Method,
    pub scheme: Option<Seq<char>>,
    pub host: Option<Seq<char>>,
    pub path_and_query: Option<Seq<char>>,
    pub headers: Seq<(Seq<char>, Seq<char>)>,
}

/// An inbound request as the hosting layer hands it over.  Scheme and host
/// are often absent behind a reverse proxy; the path with its query is kept
/// verbatim.
pub struct InboundRequest {
    pub method: Method,
    pub scheme: Option<String>,
    pub host: Option<String>,
    pub path_and_query: Option<String>,
    pub headers: Headers,
}

impl View for InboundRequest {
    type V = ReqView;

    open spec fn view(&self) -> ReqView {
        ReqView {
            method: self.method,
            scheme: self.scheme.deep_view(),
            host: self.host.deep_view(),
            path_and_query: self.path_and_query.deep_view(),
            headers: self.headers@,
        }
    }
}

} // verus!
