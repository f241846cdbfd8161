use link_scraper::{filter_links, get_regex, render, Pattern, ScrapeError, TargetUrl};

fn texts(items: &[&str]) -> Vec<String> {
    items.iter().map(|s| s.to_string()).collect()
}

#[test]
fn absent_pattern_returns_the_links_unchanged() {
    let links = texts(&["/a", "", "mailto:x@y.z", "/a"]);
    let pattern = get_regex(None).unwrap();
    assert_eq!(filter_links(&links, &pattern), links);
}

#[test]
fn empty_pattern_returns_the_links_unchanged() {
    let links = texts(&["/a", "", "mailto:x@y.z", "/a"]);
    let pattern = get_regex(Some(String::new())).unwrap();
    assert_eq!(filter_links(&links, &pattern), links);
    assert_eq!(filter_links(&links, &Pattern::any()), links);
}

#[test]
fn pattern_matches_anywhere_in_the_link() {
    let links = texts(&["/docs/a", "a/docs", "/other", "docs"]);
    let pattern = Pattern::new("docs").unwrap();
    assert_eq!(filter_links(&links, &pattern), texts(&["/docs/a", "a/docs", "docs"]));
}

#[test]
fn filtering_preserves_order_and_duplicates() {
    let links = texts(&["/b", "/x", "/a", "/b", "/y", "/a"]);
    let pattern = Pattern::new("^/[ab]$").unwrap();
    assert_eq!(filter_links(&links, &pattern), texts(&["/b", "/a", "/b", "/a"]));
}

#[test]
fn filtering_twice_equals_filtering_once() {
    let links = texts(&["/b", "/x", "/a", "", "/b", "/y"]);
    let pattern = Pattern::new("[bx]").unwrap();
    let once = filter_links(&links, &pattern);
    let twice = filter_links(&once, &pattern);
    assert_eq!(once, texts(&["/b", "/x", "/b"]));
    assert_eq!(twice, once);
}

#[test]
fn filtering_nothing_gives_nothing() {
    let pattern = Pattern::new("a").unwrap();
    assert_eq!(filter_links(&Vec::new(), &pattern), Vec::<String>::new());
}

#[test]
fn unbalanced_pattern_is_refused() {
    let error = Pattern::new("(").unwrap_err();
    assert!(matches!(error, ScrapeError::InvalidPattern(_)));
    let error = get_regex(Some("(".to_string())).unwrap_err();
    assert!(matches!(error, ScrapeError::InvalidPattern(_)));
}

#[test]
fn is_match_follows_the_pattern_not_the_text_alone() {
    let pattern = Pattern::new("^/a$").unwrap();
    assert!(pattern.is_match("/a"));
    assert!(!pattern.is_match("/ab"));
    assert!(!pattern.is_match(""));
}

#[test]
fn target_url_is_held_in_serialized_form() {
    let target = TargetUrl::parse("https://Example.com/a b".to_string()).unwrap();
    assert_eq!(target.as_str(), "https://example.com/a%20b");
}

#[test]
fn relative_text_is_no_target_url() {
    let error = TargetUrl::parse("/just/a/path".to_string()).unwrap_err();
    assert_eq!(error, ScrapeError::InvalidUrl("relative URL without a base".to_string()));
    assert_eq!(error.message(), "invalid url: relative URL without a base");
}

#[test]
fn messages_name_the_invalid_input() {
    assert_eq!(ScrapeError::InvalidUrl("d".to_string()).message(), "invalid url: d");
    assert_eq!(ScrapeError::InvalidPattern("d".to_string()).message(), "invalid regex: d");
    assert_eq!(ScrapeError::Transport("d".to_string()).message(), "d");
}

#[test]
fn only_url_and_pattern_errors_are_configuration_errors() {
    assert!(ScrapeError::InvalidUrl(String::new()).is_configuration());
    assert!(ScrapeError::InvalidPattern(String::new()).is_configuration());
    assert!(!ScrapeError::Transport(String::new()).is_configuration());
}

#[test]
fn pattern_remembers_its_source() {
    assert_eq!(Pattern::new("^/a$").unwrap().as_str(), "^/a$");
    assert_eq!(Pattern::any().as_str(), "");
    assert_eq!(get_regex(Some("z+".to_string())).unwrap().as_str(), "z+");
}

#[test]
fn oversized_pattern_is_refused() {
    let error = Pattern::new("\\w{1000}").unwrap_err();
    assert!(matches!(error, ScrapeError::InvalidPattern(_)));
}

#[test]
fn render_ends_every_line_with_a_line_feed() {
    assert_eq!(render(&Vec::new()), "");
    assert_eq!(render(&texts(&["/a"])), "/a\n");
    assert_eq!(render(&texts(&["/a", "", "/b"])), "/a\n\n/b\n");
}
