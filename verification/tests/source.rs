use gitsite::source::{
    get_file_request, get_github_file_request, get_local_file_request, has_suffix, FetchRequest,
};

#[test]
fn local_request_joins_root_and_file_path() {
    match get_local_file_request("/srv/site/", "posts/one.md") {
        FetchRequest::Local { path } => assert_eq!(path, "/srv/site/posts/one.md"),
        other => panic!("expected a local request, got {:?}", other),
    }
}

#[test]
fn local_request_adds_no_separator_of_its_own() {
    match get_local_file_request("/srv/site", "one.md") {
        FetchRequest::Local { path } => assert_eq!(path, "/srv/siteone.md"),
        other => panic!("expected a local request, got {:?}", other),
    }
    match get_local_file_request("", "one.md") {
        FetchRequest::Local { path } => assert_eq!(path, "one.md"),
        other => panic!("expected a local request, got {:?}", other),
    }
}

#[test]
fn remote_request_for_a_markdown_file_asks_for_rendered_html() {
    match get_github_file_request("owner/repo", "posts/one.md", "s3cret") {
        FetchRequest::Remote { url, user_agent, accept, authorization } => {
            assert_eq!(url, "https://api.github.com/repos/owner/repo/contents/posts/one.md");
            assert_eq!(user_agent, "gitsite");
            assert_eq!(accept, "application/vnd.github.html");
            assert_eq!(authorization, "Bearer s3cret");
        }
        other => panic!("expected a remote request, got {:?}", other),
    }
}

#[test]
fn remote_request_for_an_html_file_asks_for_the_raw_file() {
    match get_github_file_request("owner/repo", "tmpl/base.html", "s3cret") {
        FetchRequest::Remote { url, accept, .. } => {
            assert_eq!(url, "https://api.github.com/repos/owner/repo/contents/tmpl/base.html");
            assert_eq!(accept, "application/vnd.github.raw");
        }
        other => panic!("expected a remote request, got {:?}", other),
    }
}

#[test]
fn remote_request_goes_by_the_last_four_characters_alone() {
    match get_github_file_request("o/r", "xhtml", "t") {
        FetchRequest::Remote { accept, .. } => assert_eq!(accept, "application/vnd.github.raw"),
        other => panic!("expected a remote request, got {:?}", other),
    }
    match get_github_file_request("o/r", "page.HTML", "t") {
        FetchRequest::Remote { accept, .. } => assert_eq!(accept, "application/vnd.github.html"),
        other => panic!("expected a remote request, got {:?}", other),
    }
    match get_github_file_request("o/r", "page.htm", "t") {
        FetchRequest::Remote { accept, .. } => assert_eq!(accept, "application/vnd.github.html"),
        other => panic!("expected a remote request, got {:?}", other),
    }
}

#[test]
fn descriptor_with_a_project_is_fetched_remotely() {
    let project = Some(String::from("owner/repo"));
    match get_file_request("/srv/", "tok", "a.css", &project) {
        FetchRequest::Remote { url, authorization, .. } => {
            assert_eq!(url, "https://api.github.com/repos/owner/repo/contents/a.css");
            assert_eq!(authorization, "Bearer tok");
        }
        other => panic!("expected a remote request, got {:?}", other),
    }
}

#[test]
fn descriptor_without_a_project_is_read_locally() {
    match get_file_request("/srv/", "tok", "a.css", &None) {
        FetchRequest::Local { path } => assert_eq!(path, "/srv/a.css"),
        other => panic!("expected a local request, got {:?}", other),
    }
}

#[test]
fn suffix_is_found_at_the_end_only() {
    assert!(has_suffix("index.html", "html"));
    assert!(has_suffix("html", "html"));
    assert!(!has_suffix("html.md", "html"));
    assert!(!has_suffix("tml", "html"));
    assert!(!has_suffix("", "html"));
}

#[test]
fn every_text_ends_in_the_empty_suffix() {
    assert!(has_suffix("", ""));
    assert!(has_suffix("abc", ""));
}

#[test]
fn suffix_is_compared_by_characters() {
    assert!(has_suffix("caf\u{e9}", "f\u{e9}"));
    assert!(!has_suffix("cafe", "f\u{e9}"));
    assert!(has_suffix("\u{1F600}html", "html"));
    assert!(has_suffix("a\u{1F600}", "\u{1F600}"));
}
