use genesis::outcome::{channel, status_report, FetchError, StatusKind, StatusReport};
use genesis::text::{contains, find};
use genesis::url::{parse_url, prepare_request, ParsedUrl};
use genesis::validate::{check_content_type, is_allowed_content_type, is_forbidden, validate_body};

fn parts(url: &str) -> (String, String) {
    let p = parse_url(url).expect("valid url");
    (p.scheme, p.rest)
}

#[test]
fn find_returns_leftmost_occurrence() {
    assert_eq!(find("a://b://c", "://"), Some(1));
    assert_eq!(find("abc", "://"), None);
    assert_eq!(find("ab", "abc"), None);
    assert_eq!(find("héllo://x", "://"), Some(5));
    assert_eq!(find("abc", ""), Some(0));
}

#[test]
fn contains_matches_substrings() {
    assert!(contains("body with 403 Forbidden inside", "403 Forbidden"));
    assert!(!contains("403 forbidden", "403 Forbidden"));
    assert!(!contains("", "x"));
}

#[test]
fn missing_scheme_gets_default_prepended() {
    assert_eq!(parts("example.com/page"), ("http".to_string(), "example.com/page".to_string()));
}

#[test]
fn existing_scheme_is_used_verbatim() {
    assert_eq!(parts("https://a.b/c"), ("https".to_string(), "a.b/c".to_string()));
    assert_eq!(parts("ftp://host"), ("ftp".to_string(), "host".to_string()));
}

#[test]
fn normalizing_twice_keeps_the_split() {
    assert_eq!(parts("http://example.com/page"), parts("example.com/page"));
    assert_eq!(parts("https://x.y"), parts("https://x.y"));
}

#[test]
fn split_is_on_first_separator() {
    assert_eq!(parts("a://b://c"), ("a".to_string(), "b://c".to_string()));
}

#[test]
fn empty_parts_are_invalid() {
    assert_eq!(parse_url("://example.com"), Err(FetchError::InvalidUrlFormat));
    assert_eq!(parse_url("http://"), Err(FetchError::InvalidUrlFormat));
    assert_eq!(parse_url(""), Err(FetchError::InvalidUrlFormat));
    assert_eq!(prepare_request("://x", "https://relay.example/"), Err(FetchError::InvalidUrlFormat));
}

#[test]
fn tunnel_url_uses_single_slash() {
    let p = ParsedUrl { scheme: "https".to_string(), rest: "site.org/a?b=c".to_string() };
    assert_eq!(p.tunnel_url("https://relay.example/"), "https://relay.example/https:/site.org/a?b=c");
}

#[test]
fn end_to_end_success() {
    let attempt = prepare_request("example.com/page", "https://relay.example/").unwrap();
    assert_eq!(attempt.original_url, "example.com/page");
    assert_eq!(attempt.tunnel_url, "https://relay.example/http:/example.com/page");
    assert_eq!(check_content_type(Some("text/html")), Ok(()));
    let verdict = is_forbidden(200, "hello");
    assert!(!verdict);
    assert_eq!(validate_body(200, "hello".to_string(), false), Ok("hello".to_string()));
}

#[test]
fn end_to_end_forbidden_status() {
    let attempt = prepare_request("http://example.com", "https://relay.example/").unwrap();
    assert_eq!(attempt.tunnel_url, "https://relay.example/http:/example.com");
    assert_eq!(validate_body(403, "anything".to_string(), false), Err(FetchError::Forbidden));
    assert_eq!(validate_body(403, String::new(), true), Err(FetchError::Forbidden));
}

#[test]
fn end_to_end_skipped_content_type() {
    assert_eq!(
        check_content_type(Some("application/json")),
        Err(FetchError::Skipped("application/json".to_string()))
    );
}

#[test]
fn content_type_is_case_insensitive_substring() {
    assert_eq!(check_content_type(Some("Text/HTML; charset=utf-8")), Ok(()));
    assert_eq!(check_content_type(Some("application/XHTML+xml")), Ok(()));
    assert_eq!(check_content_type(Some("TEXT/PLAIN")), Ok(()));
    assert_eq!(check_content_type(None), Ok(()));
    assert_eq!(check_content_type(Some("")), Err(FetchError::Skipped(String::new())));
}

#[test]
fn skipped_content_type_is_lower_cased() {
    assert_eq!(
        check_content_type(Some("Image/PNG")),
        Err(FetchError::Skipped("image/png".to_string()))
    );
}

#[test]
fn allowed_content_types_on_lowered_input() {
    assert!(is_allowed_content_type("text/html"));
    assert!(is_allowed_content_type("application/xhtml"));
    assert!(is_allowed_content_type("x text/plain y"));
    assert!(!is_allowed_content_type("Text/HTML"));
    assert!(!is_allowed_content_type("application/json"));
}

#[test]
fn forbidden_marker_in_body() {
    assert_eq!(
        validate_body(200, "<h1>403 Forbidden</h1>".to_string(), false),
        Err(FetchError::Forbidden)
    );
    assert!(is_forbidden(403, ""));
    assert!(!is_forbidden(404, "not found"));
}

#[test]
fn error_page_is_blocked() {
    assert_eq!(
        validate_body(200, "challenge page".to_string(), true),
        Err(FetchError::BlockedByErrorPage)
    );
}

#[test]
fn status_reports_mirror_outcomes() {
    assert_eq!(channel(), "TUNNEL");
    assert_eq!(
        status_report(&Ok("x".to_string())),
        Some(StatusReport { kind: StatusKind::Success, detail: None })
    );
    assert_eq!(status_report(&Err(FetchError::InvalidUrlFormat)), None);
    assert_eq!(
        status_report(&Err(FetchError::Skipped("image/png".to_string()))),
        Some(StatusReport { kind: StatusKind::Skipped, detail: Some("image/png".to_string()) })
    );
    assert_eq!(
        status_report(&Err(FetchError::Forbidden)),
        Some(StatusReport { kind: StatusKind::Failed, detail: Some("403 Forbidden".to_string()) })
    );
    assert_eq!(
        status_report(&Err(FetchError::BlockedByErrorPage)),
        Some(StatusReport {
            kind: StatusKind::Failed,
            detail: Some("Cloudflare error detected".to_string())
        })
    );
    assert_eq!(
        status_report(&Err(FetchError::TransportFailure("timed out".to_string()))),
        Some(StatusReport { kind: StatusKind::Failed, detail: Some("timed out".to_string()) })
    );
}
