use actix_prerender::Decision;
use actix_prerender::Headers;
use actix_prerender::InboundRequest;
use actix_prerender::Method;
use actix_prerender::Prerender;
use actix_prerender::PrerenderError;
use actix_prerender::PrerenderMiddleware;
use actix_prerender::render_outcome;
use actix_prerender::rendered_response;

const GOOGLEBOT_UA: &str = "Mozilla/5.0 (compatible; Googlebot/2.1; +http://www.google.com/bot.html)";

fn crawler_request() -> InboundRequest {
    let mut headers = Headers::new();
    headers.append("User-Agent", GOOGLEBOT_UA);
    headers.append("Host", "yourserver.com");
    headers.append("Cookie", "session=1");
    InboundRequest {
        method: Method::Get,
        scheme: Some("http".to_string()),
        host: Some("yourserver.com".to_string()),
        path_and_query: Some("/clothes/tshirts?query=xl".to_string()),
        headers,
    }
}

fn names(headers: &Headers) -> Vec<String> {
    headers.entries.iter().map(|e| e.0.clone()).collect()
}

#[test]
fn use_prerender_io_configures_the_public_endpoint() {
    let cfg = Prerender::build().use_prerender_io("token-value".to_string());
    assert_eq!(cfg.service_url, "https://service.prerender.io/");
    assert_eq!(cfg.token.as_deref(), Some("token-value"));
    assert!(!cfg.forward_headers);
}

#[test]
fn use_custom_prerender_url_rejects_invalid_urls() {
    let result = Prerender::build().use_custom_prerender_url("not a url");
    assert!(matches!(result, Err(PrerenderError::InvalidUrl)));
}

#[test]
fn use_custom_prerender_url_normalizes_the_url() {
    // The stored base URL is the parser's normalized serialization, not the
    // input string handed in.
    let cfg = Prerender::build().use_custom_prerender_url("HTTP://EXAMPLE.com").unwrap();
    assert_eq!(cfg.service_url, "http://example.com/");
    assert!(cfg.token.is_none());
}

#[test]
fn forward_headers_flag_is_off_by_default_and_sticky() {
    assert!(!Prerender::build().use_prerender_io(String::new()).forward_headers);
    let cfg = Prerender::build().forward_headers().use_prerender_io(String::new());
    assert!(cfg.forward_headers);
}

#[test]
fn invalid_url_error_is_a_bad_request() {
    let err = Prerender::build().use_custom_prerender_url("::::").unwrap_err();
    assert_eq!(err.status_code(), 400);
    assert_eq!(err.message(), "Invalid Url.");
}

#[test]
fn fetch_error_keeps_its_message_and_is_a_bad_request() {
    let err = render_outcome(Err("connection refused".to_string())).unwrap_err();
    assert!(matches!(&err, PrerenderError::FetchFailed { message } if message == "connection refused"));
    assert_eq!(err.status_code(), 400);
    assert_eq!(err.message(), "connection refused");
}

#[test]
fn fetched_body_becomes_a_html_response_verbatim() {
    let body = b"<html>rendered</html>".to_vec();
    let resp = render_outcome(Ok(body.clone())).unwrap();
    assert_eq!(resp.status, 200);
    assert_eq!(resp.content_type, "text/html");
    assert_eq!(resp.body, body);
}

#[test]
fn rendered_response_wraps_any_bytes_untouched() {
    let resp = rendered_response(vec![0xff, 0x00, 0x7f]);
    assert_eq!(resp.status, 200);
    assert_eq!(resp.content_type, "text/html");
    assert_eq!(resp.body, vec![0xff, 0x00, 0x7f]);
}

#[test]
fn human_request_passes_through() {
    let mut headers = Headers::new();
    headers.append("User-Agent", "Mozilla/5.0 (X11; Linux x86_64; rv:62.0) Gecko/20100101 Firefox/62.0");
    let req = InboundRequest {
        method: Method::Get,
        scheme: Some("http".to_string()),
        host: Some("yourserver.com".to_string()),
        path_and_query: Some("/clothes/tshirts?query=xl".to_string()),
        headers,
    };
    let middleware = PrerenderMiddleware::new(Prerender::build().use_prerender_io(String::new()));
    assert!(matches!(middleware.decide(&req), Decision::PassThrough));
}

#[test]
fn diverted_request_gets_url_token_and_gzip_header() {
    let cfg = Prerender::build().use_prerender_io("secret-token".to_string());
    let middleware = PrerenderMiddleware::new(cfg);
    match middleware.decide(&crawler_request()) {
        Decision::Render { url, headers } => {
            assert_eq!(
                url,
                "https://service.prerender.io/render?url=http://yourserver.com/clothes/tshirts?query=xl"
            );
            // Headers are not forwarded by default: only the injected ones.
            assert_eq!(names(&headers), vec!["Accept-Encoding", "X-Prerender-Token"]);
            assert_eq!(headers.get("Accept-Encoding"), Some(&"gzip".to_string()));
            assert_eq!(headers.get("X-Prerender-Token"), Some(&"secret-token".to_string()));
        }
        Decision::PassThrough => panic!("crawler request must be diverted"),
    }
}

#[test]
fn forwarding_keeps_inbound_headers_but_drops_host() {
    let cfg = Prerender::build()
        .forward_headers()
        .use_custom_prerender_url("http://localhost:5000")
        .unwrap();
    let middleware = PrerenderMiddleware::new(cfg);
    match middleware.decide(&crawler_request()) {
        Decision::Render { url, headers } => {
            assert_eq!(url, "http://localhost:5000/render?url=http://yourserver.com/clothes/tshirts?query=xl");
            assert_eq!(names(&headers), vec!["User-Agent", "Cookie", "Accept-Encoding"]);
            assert_eq!(headers.get("Cookie"), Some(&"session=1".to_string()));
            // No token was configured, so none is injected.
            assert!(headers.get("X-Prerender-Token").is_none());
        }
        Decision::PassThrough => panic!("crawler request must be diverted"),
    }
}

#[test]
fn forwarding_drops_host_whatever_its_case_and_keeps_duplicates() {
    let mut headers = Headers::new();
    headers.append("User-Agent", GOOGLEBOT_UA);
    headers.append("HOST", "yourserver.com");
    headers.append("Cookie", "a=1");
    headers.append("Cookie", "b=2");
    let req = InboundRequest {
        method: Method::Get,
        scheme: Some("http".to_string()),
        host: Some("yourserver.com".to_string()),
        path_and_query: Some("/a".to_string()),
        headers,
    };
    let cfg = Prerender::build()
        .forward_headers()
        .use_custom_prerender_url("http://localhost:5000")
        .unwrap();
    match PrerenderMiddleware::new(cfg).decide(&req) {
        Decision::Render { headers, .. } => {
            assert_eq!(names(&headers), vec!["User-Agent", "Cookie", "Cookie", "Accept-Encoding"]);
        }
        Decision::PassThrough => panic!("crawler request must be diverted"),
    }
}

#[test]
fn injected_gzip_coexists_with_a_forwarded_accept_encoding() {
    let mut headers = Headers::new();
    headers.append("User-Agent", GOOGLEBOT_UA);
    headers.append("Accept-Encoding", "br");
    let req = InboundRequest {
        method: Method::Get,
        scheme: Some("http".to_string()),
        host: Some("yourserver.com".to_string()),
        path_and_query: Some("/a".to_string()),
        headers,
    };
    let cfg = Prerender::build()
        .forward_headers()
        .use_custom_prerender_url("http://localhost:5000")
        .unwrap();
    match PrerenderMiddleware::new(cfg).decide(&req) {
        Decision::Render { headers, .. } => {
            // Forwarding uses append semantics: the forwarded value stays
            // first, the injected `gzip` is added rather than replacing it.
            assert_eq!(names(&headers), vec!["User-Agent", "Accept-Encoding", "Accept-Encoding"]);
            assert_eq!(headers.get("Accept-Encoding"), Some(&"br".to_string()));
            assert_eq!(headers.entries[2].1, "gzip");
        }
        Decision::PassThrough => panic!("crawler request must be diverted"),
    }
}

#[test]
fn builder_and_build_agree_on_defaults() {
    assert!(!Prerender::builder().forward_headers);
    assert!(!Prerender::build().forward_headers);
}
