use actix_prerender::Headers;
use actix_prerender::InboundRequest;
use actix_prerender::Method;
use actix_prerender::should_prerender;

fn request(method: Method, uri_scheme: &str, uri_host: &str, path_query: &str, user_agent: Option<&str>) -> InboundRequest {
    let mut headers = Headers::new();
    if let Some(ua) = user_agent {
        headers.append("User-Agent", ua);
    }
    InboundRequest {
        method,
        scheme: Some(uri_scheme.to_string()),
        host: Some(uri_host.to_string()),
        path_and_query: Some(path_query.to_string()),
        headers,
    }
}

const FIREFOX_UA: &str = "Mozilla/5.0 (X11; Linux x86_64; rv:62.0) Gecko/20100101 Firefox/62.0";
const GOOGLEBOT_UA: &str = "Mozilla/5.0 (compatible; Googlebot/2.1; +http://www.google.com/bot.html)";
const LINKEDINBOT_UA: &str =
    "LinkedInBot/1.0 (compatible; Mozilla/5.0; Jakarta Commons-HttpClient/3.1 +http://www.linkedin.com)";

#[test]
fn test_human_valid_resource() {
    let req = request(Method::Get, "http", "yourserver.com", "/clothes/tshirts?query=xl", Some(FIREFOX_UA));
    assert!(!should_prerender(&req));
}

#[test]
fn test_crawler_valid_resource() {
    let req = request(Method::Get, "http", "yourserver.com", "/clothes/tshirts?query=xl", Some(GOOGLEBOT_UA));
    assert!(should_prerender(&req));
}

#[test]
fn test_crawler_ignored_resource() {
    let req = request(Method::Get, "http", "yourserver.com", "/clothes/tshirts/blue.jpg", Some(LINKEDINBOT_UA));
    let render = should_prerender(&req);
    assert!(!render);
}

#[test]
fn test_crawler_wrong_http_method() {
    let req = request(Method::Post, "http", "yourserver.com", "/clothes/tshirts/red-dotted", Some(LINKEDINBOT_UA));
    let render = should_prerender(&req);
    assert!(!render);
}

#[test]
fn crawler_head_request_is_diverted() {
    let req = request(Method::Head, "http", "yourserver.com", "/clothes/tshirts", Some(GOOGLEBOT_UA));
    assert!(should_prerender(&req));
}

#[test]
fn missing_user_agent_is_not_diverted() {
    let req = request(Method::Get, "http", "yourserver.com", "/clothes/tshirts", None);
    assert!(!should_prerender(&req));
}

#[test]
fn crawler_signature_matches_case_insensitively() {
    let req = request(Method::Get, "http", "yourserver.com", "/", Some("GOOGLEBOT/2.1"));
    assert!(should_prerender(&req));
}

#[test]
fn extension_in_query_is_ignored_resource() {
    // The extension check is substring containment over path and query, not
    // suffix matching: a marker anywhere in the query also excludes.
    let req = request(Method::Get, "http", "yourserver.com", "/download?file=.png", Some(GOOGLEBOT_UA));
    assert!(!should_prerender(&req));
}

#[test]
fn request_without_path_depends_on_user_agent_only() {
    let mut headers = Headers::new();
    headers.append("User-Agent", GOOGLEBOT_UA);
    let req = InboundRequest {
        method: Method::Get,
        scheme: None,
        host: None,
        path_and_query: None,
        headers,
    };
    assert!(should_prerender(&req));
}

#[test]
fn user_agent_header_name_is_case_insensitive() {
    let mut headers = Headers::new();
    headers.append("user-agent", GOOGLEBOT_UA);
    let req = InboundRequest {
        method: Method::Get,
        scheme: Some("http".to_string()),
        host: Some("yourserver.com".to_string()),
        path_and_query: Some("/clothes/tshirts".to_string()),
        headers,
    };
    assert!(should_prerender(&req));
}

#[test]
fn slackbot_and_whatsapp_signatures_match() {
    let slack = request(Method::Get, "http", "yourserver.com", "/a", Some("Slackbot-LinkExpanding 1.0"));
    assert!(should_prerender(&slack));
    let whatsapp = request(Method::Get, "http", "yourserver.com", "/a", Some("WhatsApp/2.19.81 A"));
    assert!(should_prerender(&whatsapp));
}
