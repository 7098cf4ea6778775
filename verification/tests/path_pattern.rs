use nexus::http_types::{Extensions, Method, Request, Uri, Version};
use nexus::router::route::PathPattern;

fn get_request(path: &str) -> Request<()> {
    Request {
        method: Method::Get,
        uri: Uri { path: path.to_string(), query: None },
        version: Version::Http11,
        headers: http::HeaderMap::new(),
        extensions: Extensions::new(),
        body: (),
    }
}

fn pair(name: &str, value: &str) -> (String, String) {
    (name.to_string(), value.to_string())
}

#[test]
fn literal_template_matches_itself() {
    let pattern = PathPattern::new("/users/active");
    assert_eq!(pattern.full_match(&get_request("/users/active")), Some(vec![]));
}

#[test]
fn literal_template_rejects_other_paths() {
    let pattern = PathPattern::new("/users/active");
    assert_eq!(pattern.full_match(&get_request("/users/active/")), None);
    assert_eq!(pattern.full_match(&get_request("/users/activex")), None);
    assert_eq!(pattern.full_match(&get_request("/users/activ")), None);
    assert_eq!(pattern.full_match(&get_request("/users")), None);
    assert_eq!(pattern.full_match(&get_request("/")), None);
    assert_eq!(pattern.full_match(&get_request("")), None);
}

#[test]
fn literal_segment_is_not_a_wildcard() {
    let pattern = PathPattern::new("/a.b");
    assert_eq!(pattern.full_match(&get_request("/a.b")), Some(vec![]));
    assert_eq!(pattern.full_match(&get_request("/axb")), None);
}

#[test]
fn named_segment_captures_value() {
    let pattern = PathPattern::new("/users/:id");
    assert_eq!(pattern.full_match(&get_request("/users/42")), Some(vec![pair("id", "42")]));
}

#[test]
fn named_segment_rejects_trailing_content() {
    let pattern = PathPattern::new("/users/:id");
    assert_eq!(pattern.full_match(&get_request("/users/42/extra")), None);
}

#[test]
fn named_segment_needs_a_value() {
    let pattern = PathPattern::new("/users/:id");
    assert_eq!(pattern.full_match(&get_request("/users/")), None);
    assert_eq!(pattern.full_match(&get_request("/users")), None);
}

#[test]
fn captures_come_in_declaration_order() {
    let pattern = PathPattern::new("/orgs/:org/repos/:repo");
    assert_eq!(
        pattern.full_match(&get_request("/orgs/acme/repos/anvil")),
        Some(vec![pair("org", "acme"), pair("repo", "anvil")])
    );
    assert_eq!(pattern.full_match(&get_request("/orgs/acme/repo/anvil")), None);
}

#[test]
fn root_template_matches_only_root() {
    let pattern = PathPattern::new("/");
    assert_eq!(pattern.full_match(&get_request("/")), Some(vec![]));
    assert_eq!(pattern.full_match(&get_request("/page")), None);
    assert_eq!(pattern.full_match(&get_request("")), None);
}

#[test]
fn prefix_match_returns_matched_start() {
    let pattern = PathPattern::new("/users/:id");
    assert_eq!(
        pattern.prefix_match(&get_request("/users/42/extra")),
        Some(("/users/42".to_string(), vec![pair("id", "42")]))
    );
    assert_eq!(
        pattern.prefix_match(&get_request("/users/42")),
        Some(("/users/42".to_string(), vec![pair("id", "42")]))
    );
    assert_eq!(pattern.prefix_match(&get_request("/user/42")), None);
}

#[test]
fn prefix_match_of_literal_template() {
    let pattern = PathPattern::new("/api");
    assert_eq!(
        pattern.prefix_match(&get_request("/api/v1/items")),
        Some(("/api".to_string(), vec![]))
    );
    assert_eq!(pattern.prefix_match(&get_request("/apiary")), Some(("/api".to_string(), vec![])));
    assert_eq!(pattern.prefix_match(&get_request("/ap")), None);
}

#[test]
fn do_match_reports_full_match() {
    let pattern = PathPattern::new("/files/:name");
    let found = pattern.do_match(&get_request("/files/a.txt")).unwrap();
    assert!(found.full_match);
    assert_eq!(found.matched, "/files/a.txt");
    assert_eq!(found.captures, vec![pair("name", "a.txt")]);
    let found = pattern.do_match(&get_request("/files/a.txt/raw")).unwrap();
    assert!(!found.full_match);
    assert_eq!(found.matched, "/files/a.txt");
    assert!(pattern.do_match(&get_request("/file/a.txt")).is_none());
}

#[test]
fn capture_holds_non_ascii_text() {
    let pattern = PathPattern::new("/greet/:name");
    assert_eq!(
        pattern.full_match(&get_request("/greet/zoë")),
        Some(vec![pair("name", "zoë")])
    );
}
