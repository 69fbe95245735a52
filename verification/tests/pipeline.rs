use redirector::handle_request;
use redirector::key::{is_valid_key, validate_path};
use redirector::resolve::mapping_path;
use redirector::response::content_type;

#[test]
fn valid_key_resolves_to_redirect() {
    let content = Some(String::from("https://example.com/page"));
    let e = handle_request("GET", "/mykey", content);
    assert_eq!(e.status, 301);
    assert_eq!(e.body, "{\"error\":null,\"url\":\"https://example.com/page\"}");
    assert_eq!(e.location, Some(String::from("https://example.com/page")));
}

#[test]
fn padded_content_is_trimmed() {
    let content = Some(String::from("\u{3000}https://example.com/page\n"));
    let e = handle_request("GET", "/mykey", content);
    assert_eq!(e.status, 301);
    assert_eq!(e.location, Some(String::from("https://example.com/page")));
}

#[test]
fn url_is_normalized_by_the_parser() {
    let content = Some(String::from("https://EXAMPLE.com"));
    let e = handle_request("GET", "/mykey", content);
    assert_eq!(e.status, 301);
    assert_eq!(e.location, Some(String::from("https://example.com/")));
    assert_eq!(e.body, "{\"error\":null,\"url\":\"https://example.com/\"}");
}

#[test]
fn path_with_separator_is_rejected() {
    let e = handle_request("GET", "/a/b", None);
    assert_eq!(e.status, 400);
    assert_eq!(e.body, "{\"error\":\"invalid path\"}");
    assert_eq!(e.location, None);
}

#[test]
fn missing_file_is_not_found() {
    let e = handle_request("GET", "/doesnotexist", None);
    assert_eq!(e.status, 404);
    assert_eq!(e.body, "{\"error\":\"not found\"}");
    assert_eq!(e.location, None);
}

#[test]
fn content_that_is_no_url_is_not_found() {
    let e = handle_request("GET", "/goodkey", Some(String::from("not a url")));
    assert_eq!(e.status, 404);
    assert_eq!(e.body, "{\"error\":\"not found\"}");
    assert_eq!(e.location, None);
}

#[test]
fn relative_url_is_not_found() {
    let e = handle_request("GET", "/goodkey", Some(String::from("page.html")));
    assert_eq!(e.status, 404);
    assert_eq!(e.body, "{\"error\":\"not found\"}");
}

#[test]
fn post_is_rejected_on_any_path() {
    for path in ["/mykey", "/a/b", "/", ""] {
        let e = handle_request("POST", path, None);
        assert_eq!(e.status, 405);
        assert_eq!(e.body, "{\"error\":\"invalid method\"}");
        assert_eq!(e.location, None);
    }
}

#[test]
fn other_methods_are_rejected_too() {
    for method in ["PUT", "DELETE", "HEAD", "get", ""] {
        let e = handle_request(method, "/mykey", None);
        assert_eq!(e.status, 405);
        assert_eq!(e.body, "{\"error\":\"invalid method\"}");
    }
}

#[test]
fn repeated_request_gets_identical_response() {
    let content = String::from("https://example.com/page");
    let e1 = handle_request("GET", "/mykey", Some(content.clone()));
    let e2 = handle_request("GET", "/mykey", Some(content));
    assert_eq!(e1.status, e2.status);
    assert_eq!(e1.body.as_bytes(), e2.body.as_bytes());
    assert_eq!(e1.location, e2.location);
}

#[test]
fn distinct_requests_get_their_own_urls() {
    let pairs = [
        ("/alpha", "https://example.com/a"),
        ("/beta", "https://example.com/b"),
        ("/gamma", "https://example.com/c"),
    ];
    for (path, url) in pairs {
        let e = handle_request("GET", path, Some(String::from(url)));
        assert_eq!(e.status, 301);
        assert_eq!(e.location, Some(String::from(url)));
    }
}

#[test]
fn key_syntax() {
    assert!(is_valid_key("abc"));
    assert!(is_valid_key("a"));
    assert!(is_valid_key("A-b.c_9"));
    assert!(is_valid_key("a.b"));
    assert!(is_valid_key("a-b"));
    assert!(is_valid_key("_"));
    assert!(!is_valid_key(""));
    assert!(!is_valid_key("-a"));
    assert!(!is_valid_key("a-"));
    assert!(!is_valid_key(".a"));
    assert!(!is_valid_key("a."));
    assert!(!is_valid_key("a--b"));
    assert!(!is_valid_key("a..b"));
    assert!(!is_valid_key("a-.b"));
    assert!(!is_valid_key("a b"));
    assert!(!is_valid_key("a/b"));
    assert!(!is_valid_key("ä"));
}

#[test]
fn path_strips_exactly_one_slash() {
    assert!(validate_path("/abc"));
    assert!(validate_path("abc"));
    assert!(!validate_path("//abc"));
    assert!(!validate_path("/"));
    assert!(!validate_path(""));
}

#[test]
fn mapping_path_joins_with_one_slash() {
    assert_eq!(mapping_path("data", "/mykey"), "data/mykey");
    assert_eq!(mapping_path("data", "mykey"), "data/mykey");
    assert_eq!(mapping_path("/srv/links", "/a.b"), "/srv/links/a.b");
}

#[test]
fn responses_are_json() {
    assert_eq!(content_type(), "application/json");
}
