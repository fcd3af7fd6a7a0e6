//! Crawler-aware request interception for a prerender service.
//!
//! The library decides, for each inbound HTTP request, whether it should be
//! diverted to an external rendering service, and if so, with which target
//! URL and outbound headers.  The hosting layer performs the actual network
//! calls; everything here is pure decision logic with verified contracts.

mod builder;
mod consts;
mod error;
mod headers;
mod middleware;
mod request;
mod strings;

pub use builder::parse_base_url;
pub use builder::prerender_io_url;
pub use builder::CfgView;
pub use builder::Prerender;
pub use builder::PrerenderBuilder;
pub use consts::crawler_signatures;
pub use consts::crawler_signatures_spec;
pub use consts::ignored_extensions;
pub use consts::ignored_extensions_spec;
pub use error::PrerenderError;
pub use headers::drop_host_headers;
pub use headers::is_host_name;
pub use headers::lookup_header;
pub use headers::Headers;
pub use middleware::build_outbound_headers;
pub use middleware::has_ignored_extension;
pub use middleware::host_resolvable;
pub use middleware::is_get_or_head;
pub use middleware::lemma_crawler_on_clean_path_is_diverted;
pub use middleware::lemma_ignored_extension_passes_through;
pub use middleware::lemma_non_get_head_passes_through;
pub use middleware::lemma_target_url_deterministic;
pub use middleware::render_outcome;
pub use middleware::rendered_response;
pub use middleware::resolved_host;
pub use middleware::resolved_scheme;
pub use middleware::should_prerender;
pub use middleware::spec_outbound_headers;
pub use middleware::spec_should_prerender;
pub use middleware::spec_target_url;
pub use middleware::ua_is_crawler;
pub use middleware::Decision;
pub use middleware::PrerenderMiddleware;
pub use middleware::RenderedResponse;
pub use request::InboundRequest;
pub use request::Method;
pub use request::ReqView;
pub use strings::contains_substr;
pub use strings::lower_char;
pub use strings::lower_seq;
pub use strings::match_at;
pub use strings::trim_spec;
