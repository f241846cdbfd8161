use link_scraper::{get_links, matching_links, parse_args, render, ScrapeError};

const PAGE: &str = "<html><body><a href=\"/a\">x</a><a href=\"/b\">y</a><a>z</a></body></html>";

fn run(url: &str, regex: Option<&str>, fetched: Result<&str, &str>) -> Result<Vec<String>, ScrapeError> {
    let args = parse_args(url.to_string(), regex.map(|r| r.to_string()))?;
    let fetched = fetched.map(|b| b.to_string()).map_err(|e| e.to_string());
    matching_links(&args, fetched)
}

#[test]
fn no_pattern_emits_every_href_in_document_order() {
    let lines = run("http://example.com/", None, Ok(PAGE)).unwrap();
    assert_eq!(lines, vec!["/a".to_string(), "/b".to_string()]);
    assert_eq!(render(&lines), "/a\n/b\n");
}

#[test]
fn anchored_pattern_emits_only_the_exact_link() {
    let lines = run("http://example.com/", Some("^/a$"), Ok(PAGE)).unwrap();
    assert_eq!(lines, vec!["/a".to_string()]);
    assert_eq!(render(&lines), "/a\n");
}

#[test]
fn pattern_without_match_emits_nothing_and_succeeds() {
    let lines = run("http://example.com/", Some("zzz"), Ok(PAGE));
    assert_eq!(lines, Ok(Vec::new()));
    assert_eq!(render(&lines.unwrap()), "");
}

#[test]
fn failed_fetch_gives_transport_error_and_no_lines() {
    let lines = run("http://example.com/", None, Err("connection refused"));
    assert_eq!(lines, Err(ScrapeError::Transport("connection refused".to_string())));
    let error = lines.unwrap_err();
    assert!(!error.is_configuration());
    assert_eq!(error.message(), "connection refused");
}

#[test]
fn failed_fetch_is_reported_before_any_extraction() {
    let links = get_links(Err("timed out".to_string()));
    assert_eq!(links, Err(ScrapeError::Transport("timed out".to_string())));
}

#[test]
fn invalid_url_is_a_configuration_error() {
    let error = parse_args("not a url".to_string(), None).unwrap_err();
    assert!(matches!(error, ScrapeError::InvalidUrl(_)));
    assert!(error.is_configuration());
    assert_eq!(error.message(), "invalid url: relative URL without a base");
}

#[test]
fn invalid_pattern_is_a_configuration_error() {
    let error = parse_args("http://example.com/".to_string(), Some("(".to_string())).unwrap_err();
    assert!(matches!(error, ScrapeError::InvalidPattern(_)));
    assert!(error.is_configuration());
    let message = error.message();
    assert!(message.starts_with("invalid regex: "));
    assert!(message.contains("unclosed group"));
    assert_ne!(message, "invalid regex: (");
}

#[test]
fn invalid_pattern_is_reported_before_invalid_url() {
    let error = parse_args("not a url".to_string(), Some("(".to_string())).unwrap_err();
    assert!(matches!(error, ScrapeError::InvalidPattern(_)));
}

#[test]
fn valid_arguments_keep_the_parsed_address_and_the_pattern() {
    let args = parse_args("HTTP://Example.COM".to_string(), Some("^/a".to_string())).unwrap();
    assert_eq!(args.url.as_str(), "http://example.com/");
    assert_eq!(args.regex.as_str(), "^/a");
    assert!(args.regex.is_match("/abc"));
    assert!(!args.regex.is_match("x/abc"));
}

#[test]
fn absent_pattern_matches_the_empty_link() {
    let args = parse_args("http://example.com/".to_string(), None).unwrap();
    assert_eq!(args.regex.as_str(), "");
    assert!(args.regex.is_match(""));
    assert!(args.regex.is_match("anything at all"));
}
