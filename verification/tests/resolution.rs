use gitsite::models::{
    AppData, Config, Header, HeaderLink, LibFile, MemoryPage, Page, SiteConfig, Timestamp,
};
use gitsite::page_domain::{
    cache_fetched_file, cache_file_string, compose_page, get_composed_page, get_header_links,
    resume, update_and_get_content, update_and_get_in_memory, update_and_get_lib_page,
    update_and_get_page, Composing, FileError, Lookup, Pending, Stage, Step,
};
use gitsite::source::{FetchError, FetchRequest};

const BASE: &str = "<html><title>{{title}}</title>{{{content}}}</html>";
const POST: &str = "<p>first post</p>";

fn page(file_path: &str, tmpl_html: Option<&str>) -> Page {
    Page {
        title: String::from("Post One"),
        file_path: String::from(file_path),
        tmpl_html: tmpl_html.map(String::from),
        github_project: None,
        description: None,
        date: None,
        pinned_posts: None,
        recache_seconds: None,
    }
}

fn lib_file(file_path: &str) -> LibFile {
    LibFile { file_path: String::from(file_path), github_project: None, recache_seconds: None }
}

fn site() -> AppData {
    let header = Header {
        links: vec![HeaderLink { path: String::from("/"), name: String::from("Home") }],
        socials: None,
    };
    let site_config = SiteConfig { default_recache_seconds: 60, title: String::from("Site") };
    let mut config = Config::new(header, site_config);
    config.insert_lib(String::from("tmpl/base"), lib_file("base.html"));
    config.insert_lib(String::from("css/main"), lib_file("main.css"));
    config.insert_content(String::from("blog/post1"), page("post1.md", Some("tmpl/base")));
    config.insert_content(String::from("blog/bare"), page("bare.md", None));
    config.insert_content(String::from("blog/lost"), page("lost.md", Some("tmpl/none")));
    AppData::new(config, String::from("/site/"), String::from("token"))
}

/// The local files of the site; any other request fails.
fn read(request: &FetchRequest) -> Result<String, FetchError> {
    match request {
        FetchRequest::Local { path } => match path.as_str() {
            "/site/base.html" => Ok(String::from(BASE)),
            "/site/post1.md" => Ok(String::from(POST)),
            "/site/main.css" => Ok(String::from("body { margin: 0 }")),
            _ => Err(FetchError::LocalFileNotFound),
        },
        FetchRequest::Remote { .. } => Err(FetchError::RemoteFetchError(String::from("offline"))),
    }
}

/// Runs a resolution to its end and records the paths that were read.
fn drive(
    app_data: &mut AppData,
    first: Step,
    now: Timestamp,
    reads: &mut Vec<String>,
) -> Result<MemoryPage, FileError> {
    let mut step = first;
    loop {
        match step {
            Step::Done(outcome) => return outcome,
            Step::Fetch(request, pending) => {
                if let FetchRequest::Local { path } = &request {
                    reads.push(path.clone());
                }
                let fetched = read(&request);
                step = resume(app_data, pending, fetched, now);
            }
            Step::Compose(composing) => return compose_page(app_data, &composing),
        }
    }
}

fn at(secs: u64) -> Timestamp {
    Timestamp::new(secs, 0)
}

/// The end of a resolution that asks for no fetch.
fn end(app_data: &AppData, step: Step) -> Result<MemoryPage, FileError> {
    match step {
        Step::Done(outcome) => outcome,
        Step::Compose(composing) => compose_page(app_data, &composing),
        Step::Fetch(request, _) => panic!("expected no fetch, got {:?}", request),
    }
}

#[test]
fn page_is_read_from_disk_once_and_then_served_from_the_cache() {
    let mut app_data = site();
    let path = String::from("blog/post1");
    let mut reads = Vec::new();

    let first = update_and_get_page(&app_data, &path, at(1_000));
    let page = drive(&mut app_data, first, at(1_000), &mut reads).expect("the page resolves");
    assert_eq!(reads, vec![String::from("/site/post1.md"), String::from("/site/base.html")]);
    assert_eq!(page.content, "<html><title>Post One</title><p>first post</p></html>");
    assert!(page.content.contains(POST));
    assert_eq!(page.last_updated_at, at(1_000));

    reads.clear();
    let second = update_and_get_page(&app_data, &path, at(1_000));
    assert!(matches!(second, Step::Compose(_)));
    let again = drive(&mut app_data, second, at(1_000), &mut reads).expect("the page resolves");
    assert!(reads.is_empty());
    assert_eq!(again.content, page.content);
    assert_eq!(again.last_updated_at, page.last_updated_at);
}

#[test]
fn composed_page_is_dated_as_its_template() {
    let mut app_data = site();
    let path = String::from("blog/post1");
    let first = update_and_get_page(&app_data, &path, at(100));
    let pending = match first {
        Step::Fetch(request, pending) => {
            assert!(matches!(&request, FetchRequest::Local { path } if path == "/site/post1.md"));
            assert!(matches!(pending.stage, Stage::PageContent));
            assert_eq!(pending.path, "blog/post1");
            pending
        }
        other => panic!("expected the body's fetch, got {:?}", other),
    };
    let second = resume(&mut app_data, pending, Ok(String::from(POST)), at(110));
    let pending = match second {
        Step::Fetch(request, pending) => {
            assert!(matches!(&request, FetchRequest::Local { path } if path == "/site/base.html"));
            assert!(matches!(&pending.stage, Stage::PageTemplate { body } if body == POST));
            pending
        }
        other => panic!("expected the template's fetch, got {:?}", other),
    };
    let last = resume(&mut app_data, pending, Ok(String::from(BASE)), at(125));
    match &last {
        Step::Compose(composing) => {
            assert_eq!(composing.path, "blog/post1");
            assert_eq!(composing.body, POST);
            assert_eq!(composing.template.content, BASE);
            assert_eq!(composing.template.last_updated_at, at(125));
        }
        other => panic!("expected the page to be ready, got {:?}", other),
    }
    let page = end(&app_data, last).expect("the page is composed");
    assert_eq!(page.last_updated_at, at(125));
    let body = app_data.memory_pages.get("blog/post1").expect("the body is cached");
    assert_eq!(body.content, POST);
    assert_eq!(body.last_updated_at, at(110));
    let template = app_data.memory_pages.get("tmpl/base").expect("the template is cached");
    assert_eq!(template.content, BASE);
    assert_eq!(template.last_updated_at, at(125));

    let later = update_and_get_page(&app_data, &path, at(130));
    let page = end(&app_data, later).expect("the page is composed");
    assert_eq!(page.last_updated_at, at(125));
}

#[test]
fn stale_entry_is_fetched_again_exactly_once() {
    let header = Header { links: Vec::new(), socials: None };
    let site_config = SiteConfig { default_recache_seconds: 3_600, title: String::from("Site") };
    let mut config = Config::new(header, site_config);
    let mut short_lived = page("post1.md", None);
    short_lived.recache_seconds = Some(1);
    config.insert_content(String::from("blog/post1"), short_lived);
    let mut app_data = AppData::new(config, String::from("/site/"), String::new());
    let path = String::from("blog/post1");
    let mut reads = Vec::new();

    let first = update_and_get_content(&app_data, &path, at(1_000));
    drive(&mut app_data, first, at(1_000), &mut reads).expect("the file resolves");
    assert_eq!(reads.len(), 1);

    let second = update_and_get_content(&app_data, &path, at(1_002));
    let page = drive(&mut app_data, second, at(1_002), &mut reads).expect("the file resolves");
    assert_eq!(reads.len(), 2);
    assert_eq!(page.last_updated_at, at(1_002));

    let third = update_and_get_content(&app_data, &path, Timestamp::new(1_002, 999_999_999));
    drive(&mut app_data, third, Timestamp::new(1_002, 999_999_999), &mut reads)
        .expect("the file resolves");
    assert_eq!(reads.len(), 2);
}

#[test]
fn missing_library_key_is_not_found_without_a_fetch() {
    let app_data = site();
    let step = update_and_get_lib_page(&app_data, &String::from("missing/key"), at(1));
    assert!(matches!(step, Step::Done(Err(FileError::FileNotFound()))));
}

#[test]
fn missing_key_is_not_found_whatever_the_cache_holds() {
    let mut app_data = site();
    cache_file_string(&mut app_data, String::from("missing/key"), String::from("x"), at(1));
    let key = String::from("missing/key");
    assert!(matches!(
        update_and_get_lib_page(&app_data, &key, at(1)),
        Step::Done(Err(FileError::FileNotFound()))
    ));
    assert!(matches!(
        update_and_get_content(&app_data, &key, at(1)),
        Step::Done(Err(FileError::FileNotFound()))
    ));
    assert!(matches!(
        update_and_get_page(&app_data, &key, at(1)),
        Step::Done(Err(FileError::FileNotFound()))
    ));
}

#[test]
fn library_key_is_not_a_content_key() {
    let app_data = site();
    assert!(matches!(
        update_and_get_content(&app_data, &String::from("css/main"), at(1)),
        Step::Done(Err(FileError::FileNotFound()))
    ));
    assert!(matches!(
        update_and_get_lib_page(&app_data, &String::from("blog/post1"), at(1)),
        Step::Done(Err(FileError::FileNotFound()))
    ));
}

#[test]
fn library_file_is_fetched_once_and_then_served() {
    let mut app_data = site();
    let path = String::from("css/main");
    let mut reads = Vec::new();
    let first = update_and_get_lib_page(&app_data, &path, at(10));
    let page = drive(&mut app_data, first, at(10), &mut reads).expect("the file resolves");
    assert_eq!(reads, vec![String::from("/site/main.css")]);
    assert_eq!(page.content, "body { margin: 0 }");
    assert_eq!(page.last_updated_at, at(10));

    let second = update_and_get_lib_page(&app_data, &path, at(69));
    match second {
        Step::Done(Ok(again)) => {
            assert_eq!(again.content, page.content);
            assert_eq!(again.last_updated_at, at(10));
        }
        other => panic!("expected the cached file, got {:?}", other),
    }
    let third = update_and_get_lib_page(&app_data, &path, at(70));
    assert!(matches!(third, Step::Fetch(_, _)));
}

#[test]
fn content_file_resolves_on_its_own_without_its_template() {
    let mut app_data = site();
    let path = String::from("blog/post1");
    let mut reads = Vec::new();
    let first = update_and_get_content(&app_data, &path, at(10));
    let page = drive(&mut app_data, first, at(10), &mut reads).expect("the file resolves");
    assert_eq!(reads, vec![String::from("/site/post1.md")]);
    assert_eq!(page.content, POST);
    assert!(app_data.memory_pages.get("tmpl/base").is_none());
}

#[test]
fn page_without_a_template_key_is_not_found() {
    let app_data = site();
    let step = update_and_get_page(&app_data, &String::from("blog/bare"), at(1));
    assert!(matches!(step, Step::Done(Err(FileError::FileNotFound()))));
}

#[test]
fn page_whose_template_is_not_configured_is_not_found_without_a_fetch() {
    let app_data = site();
    let step = update_and_get_page(&app_data, &String::from("blog/lost"), at(1));
    assert!(matches!(step, Step::Done(Err(FileError::FileNotFound()))));
}

#[test]
fn page_fails_without_fetching_the_template_when_the_body_cannot_be_fetched() {
    let mut app_data = site();
    let path = String::from("blog/post1");
    let first = update_and_get_page(&app_data, &path, at(1));
    let pending = match first {
        Step::Fetch(_, pending) => pending,
        other => panic!("expected the body's fetch, got {:?}", other),
    };
    let step = resume(&mut app_data, pending, Err(FetchError::LocalFileNotFound), at(2));
    assert!(matches!(step, Step::Done(Err(FileError::FileNotFound()))));
    assert!(app_data.memory_pages.get("blog/post1").is_none());
    assert!(app_data.memory_pages.get("tmpl/base").is_none());
}

#[test]
fn page_fails_when_the_template_cannot_be_fetched() {
    let mut app_data = site();
    let path = String::from("blog/post1");
    let first = update_and_get_page(&app_data, &path, at(1));
    let pending = match first {
        Step::Fetch(_, pending) => pending,
        other => panic!("expected the body's fetch, got {:?}", other),
    };
    let second = resume(&mut app_data, pending, Ok(String::from(POST)), at(2));
    let pending = match second {
        Step::Fetch(_, pending) => pending,
        other => panic!("expected the template's fetch, got {:?}", other),
    };
    let failure = Err(FetchError::RemoteFetchError(String::from("status 500")));
    let last = resume(&mut app_data, pending, failure, at(3));
    assert!(matches!(last, Step::Done(Err(FileError::FileNotFound()))));
    assert_eq!(app_data.memory_pages.get("blog/post1").expect("the body stays cached").content, POST);
    assert!(app_data.memory_pages.get("tmpl/base").is_none());
}

#[test]
fn page_fails_when_the_template_does_not_render() {
    let mut app_data = site();
    let path = String::from("blog/post1");
    cache_file_string(&mut app_data, String::from("blog/post1"), String::from(POST), at(1));
    cache_file_string(&mut app_data, String::from("tmpl/base"), String::from("{{#each}}"), at(1));
    let step = update_and_get_page(&app_data, &path, at(2));
    assert!(matches!(step, Step::Compose(_)));
    assert!(matches!(end(&app_data, step), Err(FileError::FileNotFound())));
}

#[test]
fn page_is_composed_at_once_when_both_parts_are_cached() {
    let mut app_data = site();
    cache_file_string(&mut app_data, String::from("blog/post1"), String::from("B"), at(5));
    cache_file_string(&mut app_data, String::from("tmpl/base"), String::from("[{{content}}]"), at(3));
    let step = update_and_get_page(&app_data, &String::from("blog/post1"), at(10));
    assert!(matches!(step, Step::Compose(_)));
    let page = end(&app_data, step).expect("the page is composed");
    assert_eq!(page.content, "[B]");
    assert_eq!(page.last_updated_at, at(3));
}

#[test]
fn page_fetches_only_the_part_that_is_stale() {
    let mut app_data = site();
    cache_file_string(&mut app_data, String::from("blog/post1"), String::from("B"), at(50));
    cache_file_string(&mut app_data, String::from("tmpl/base"), String::from("[{{content}}]"), at(0));
    match update_and_get_page(&app_data, &String::from("blog/post1"), at(60)) {
        Step::Fetch(request, pending) => {
            assert!(matches!(&request, FetchRequest::Local { path } if path == "/site/base.html"));
            assert!(matches!(&pending.stage, Stage::PageTemplate { body } if body == "B"));
        }
        other => panic!("expected the template's fetch, got {:?}", other),
    }
}

#[test]
fn resuming_for_a_key_that_is_not_configured_caches_nothing() {
    let mut app_data = site();
    for stage in [Stage::Library, Stage::Content, Stage::PageContent] {
        let pending = Pending { path: String::from("missing/key"), stage };
        let step = resume(&mut app_data, pending, Ok(String::from("text")), at(1));
        assert!(matches!(step, Step::Done(Err(FileError::FileNotFound()))));
    }
    let pending = Pending {
        path: String::from("missing/key"),
        stage: Stage::PageTemplate { body: String::from("b") },
    };
    let step = resume(&mut app_data, pending, Ok(String::from("text")), at(1));
    assert!(matches!(step, Step::Done(Err(FileError::FileNotFound()))));
    assert!(app_data.memory_pages.get("missing/key").is_none());
}

#[test]
fn lookup_serves_a_fresh_entry_and_asks_for_a_stale_one() {
    let mut app_data = site();
    let path = String::from("any/key");
    let file_path = String::from("any.txt");
    match update_and_get_in_memory(&app_data, &path, &file_path, &None, 10, at(100)) {
        Lookup::Fetch(FetchRequest::Local { path }) => assert_eq!(path, "/site/any.txt"),
        other => panic!("expected a local fetch, got {:?}", other),
    }
    cache_file_string(&mut app_data, String::from("any/key"), String::from("cached"), at(100));
    match update_and_get_in_memory(&app_data, &path, &file_path, &None, 10, at(109)) {
        Lookup::Cached(page) => assert_eq!(page.content, "cached"),
        other => panic!("expected the cached entry, got {:?}", other),
    }
    let project = Some(String::from("owner/repo"));
    match update_and_get_in_memory(&app_data, &path, &file_path, &project, 10, at(110)) {
        Lookup::Fetch(FetchRequest::Remote { url, authorization, .. }) => {
            assert_eq!(url, "https://api.github.com/repos/owner/repo/contents/any.txt");
            assert_eq!(authorization, "Bearer token");
        }
        other => panic!("expected a remote fetch, got {:?}", other),
    }
}

#[test]
fn fetched_text_is_cached_and_a_failure_is_not() {
    let mut app_data = site();
    let path = String::from("css/main");
    let failed = cache_fetched_file(&mut app_data, &path, Err(FetchError::LocalFileNotFound), at(1));
    assert!(matches!(failed, Err(FileError::FileNotFound())));
    assert!(app_data.memory_pages.get("css/main").is_none());

    let stored = cache_fetched_file(&mut app_data, &path, Ok(String::from("a{}")), at(2));
    let page = stored.expect("the text is cached");
    assert_eq!(page.content, "a{}");
    assert_eq!(page.last_updated_at, at(2));
    assert_eq!(app_data.memory_pages.get("css/main").expect("cached").content, "a{}");

    let failed = cache_fetched_file(&mut app_data, &path, Err(FetchError::LocalFileNotFound), at(3));
    assert!(matches!(failed, Err(FileError::FileNotFound())));
    assert_eq!(app_data.memory_pages.get("css/main").expect("still cached").content, "a{}");
}

#[test]
fn composed_page_takes_the_text_and_the_time_it_is_given() {
    let page = get_composed_page(Some(String::from("<html/>")), at(42)).expect("a page");
    assert_eq!(page.content, "<html/>");
    assert_eq!(page.last_updated_at, at(42));
    assert!(matches!(get_composed_page(None, at(42)), Err(FileError::FileNotFound())));
}

#[test]
fn header_links_come_in_their_order() {
    let app_data = site();
    let links = get_header_links(&app_data);
    assert_eq!(links.len(), 1);
    assert_eq!(links[0].path, "/");
    assert_eq!(links[0].name, "Home");
}

#[test]
fn new_app_data_starts_with_an_empty_cache() {
    let app_data = site();
    assert_eq!(app_data.local_files_dir, "/site/");
    assert_eq!(app_data.github_access_token, "token");
    assert!(app_data.memory_pages.get("blog/post1").is_none());
    assert!(app_data.memory_pages.get("tmpl/base").is_none());
}

#[test]
fn page_with_a_stale_body_fetches_the_body_alone() {
    let header = Header { links: Vec::new(), socials: None };
    let site_config = SiteConfig { default_recache_seconds: 3_600, title: String::from("Site") };
    let mut config = Config::new(header, site_config);
    let mut short_lived = page("post1.md", Some("tmpl/base"));
    short_lived.recache_seconds = Some(1);
    config.insert_content(String::from("blog/post1"), short_lived);
    config.insert_lib(String::from("tmpl/base"), lib_file("base.html"));
    let mut app_data = AppData::new(config, String::from("/site/"), String::new());
    let path = String::from("blog/post1");
    let mut reads = Vec::new();

    let first = update_and_get_page(&app_data, &path, at(1_000));
    drive(&mut app_data, first, at(1_000), &mut reads).expect("the page resolves");
    assert_eq!(reads.len(), 2);

    reads.clear();
    let second = update_and_get_page(&app_data, &path, at(1_002));
    let page = drive(&mut app_data, second, at(1_002), &mut reads).expect("the page resolves");
    assert_eq!(reads, vec![String::from("/site/post1.md")]);
    assert_eq!(page.last_updated_at, at(1_000));
    let body = app_data.memory_pages.get("blog/post1").expect("the body is cached");
    assert_eq!(body.last_updated_at, at(1_002));
    let template = app_data.memory_pages.get("tmpl/base").expect("the template is cached");
    assert_eq!(template.last_updated_at, at(1_000));
}

#[test]
fn composing_changes_nothing_of_the_cache() {
    let mut app_data = site();
    cache_file_string(&mut app_data, String::from("blog/post1"), String::from("B"), at(5));
    cache_file_string(&mut app_data, String::from("tmpl/base"), String::from("[{{content}}]"), at(3));
    let step = update_and_get_page(&app_data, &String::from("blog/post1"), at(10));
    let first = end(&app_data, step).expect("the page is composed");
    let step = update_and_get_page(&app_data, &String::from("blog/post1"), at(10));
    let second = end(&app_data, step).expect("the page is composed");
    assert_eq!(first.content, second.content);
    assert_eq!(app_data.memory_pages.get("blog/post1").expect("cached").content, "B");
    assert_eq!(app_data.memory_pages.get("tmpl/base").expect("cached").content, "[{{content}}]");
}

#[test]
fn composing_for_a_key_that_is_not_configured_is_not_found() {
    let app_data = site();
    let composing = Composing {
        path: String::from("missing/key"),
        body: String::from("body"),
        template: MemoryPage { content: String::from("{{content}}"), last_updated_at: at(1) },
    };
    assert!(matches!(compose_page(&app_data, &composing), Err(FileError::FileNotFound())));
}

#[test]
fn composing_uses_the_title_and_the_pinned_posts_of_the_page() {
    let app_data = site();
    let composing = Composing {
        path: String::from("blog/post1"),
        body: String::from("body"),
        template: MemoryPage {
            content: String::from("{{title}}|{{site_title}}|{{content}}"),
            last_updated_at: at(9),
        },
    };
    let page = compose_page(&app_data, &composing).expect("the page is composed");
    assert_eq!(page.content, "Post One|Site|body");
    assert_eq!(page.last_updated_at, at(9));
}
