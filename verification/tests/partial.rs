use gitsite::models::{AppData, Config, Header, LibFile, Page, SiteConfig, Timestamp};
use gitsite::page_domain::{
    cache_file_string, compose_page, update_and_get_page, FileError, Step,
};
use gitsite::partial::refuses;
use gitsite::template::{inject_content, InjectError};

fn app_data() -> AppData {
    let header = Header { links: Vec::new(), socials: None };
    let site_config = SiteConfig { default_recache_seconds: 60, title: String::from("Site") };
    let mut config = Config::new(header, site_config);
    config.insert_lib(
        String::from("tmpl/base"),
        LibFile { file_path: String::from("base.html"), github_project: None, recache_seconds: None },
    );
    config.insert_content(
        String::from("post"),
        Page {
            title: String::from("Post"),
            file_path: String::from("post.md"),
            tmpl_html: Some(String::from("tmpl/base")),
            github_project: None,
            description: None,
            date: None,
            pinned_posts: None,
            recache_seconds: None,
        },
    );
    AppData::new(config, String::from("/site/"), String::from("token"))
}

fn inject(template: &str) -> Result<String, InjectError> {
    inject_content(
        &String::from(template),
        &String::from("body"),
        &None,
        &String::from("Post"),
        &app_data(),
    )
}

#[test]
fn template_without_an_inclusion_is_passed() {
    assert!(!refuses(""));
    assert!(!refuses("plain text with > and {{ apart"));
    assert!(!refuses("{{title}}"));
    assert!(!refuses("{{{content}}}"));
    assert!(!refuses("{{#if title}}{{title}}{{/if}}"));
    assert!(!refuses("<html>{{#each header_links}}<a href=\"{{path}}\">{{name}}</a>{{/each}}</html>"));
}

#[test]
fn greater_than_sign_elsewhere_in_a_tag_is_no_inclusion() {
    assert!(!refuses("{{a > b}}"));
    assert!(!refuses("{{gt a b}}>"));
    assert!(!refuses("{>tmpl}"));
    assert!(!refuses("{ {>tmpl}}"));
    assert!(!refuses("{{!> tmpl}}"));
    assert!(!refuses("{{/>tmpl}}"));
}

#[test]
fn inclusion_of_the_template_itself_is_refused() {
    assert!(refuses("{{> tmpl}}"));
    assert!(refuses("{{>tmpl}}"));
    assert!(refuses("{{#if title}}{{> tmpl}}{{/if}}"));
    assert!(refuses("{{~> tmpl}}"));
    assert!(refuses("{{ ~ > \t\r\n tmpl ~}}"));
    assert!(refuses("{{#> tmpl}}x{{/tmpl}}"));
    assert!(refuses("{{> tmpl title=content}}"));
    assert!(refuses("text {{> other}} and {{> tmpl}}"));
    assert!(refuses("{{> tmpl"));
}

#[test]
fn inclusion_of_the_template_itself_is_refused_wherever_it_stands() {
    assert!(refuses("{{! a note about {{> tmpl}} }}hello"));
    assert!(refuses("{{!-- {{> tmpl}} --}}hello"));
    assert!(refuses("\\{{> tmpl}}"));
    assert!(refuses("{{{{raw}}}}{{> tmpl}}{{{{/raw}}}}"));
    assert!(refuses("{{{> tmpl}}}"));
}

#[test]
fn inclusion_of_another_plain_name_is_passed() {
    assert!(!refuses("{{> other}}"));
    assert!(!refuses("{{>other}}"));
    assert!(!refuses("{{> tmpl2}}"));
    assert!(!refuses("{{> tmp}}"));
    assert!(!refuses("{{> tmpl.html}}"));
    assert!(!refuses("{{> tmpl/base}}"));
    assert!(!refuses("{{> tmpl-x}}"));
    assert!(!refuses("{{> tmpl_}}"));
    assert!(!refuses("{{> tmpl\u{e9}}}"));
    assert!(!refuses("{{> Tmpl}}"));
    assert!(!refuses("{{#> layout}}{{content}}{{/layout}}"));
    assert!(!refuses("{{#if title}}{{> footer}}{{/if}}{{> header}}"));
    assert!(!refuses("{{> other"));
    assert!(!refuses("{{! a note about {{> other}} }}hello"));
}

#[test]
fn inclusion_whose_name_is_not_plain_is_refused() {
    assert!(refuses("{{> (lookup . \"name\")}}"));
    assert!(refuses("{{> 'tmpl'}}"));
    assert!(refuses("{{> [tmpl]}}"));
    assert!(refuses("{{> \"tmpl\"}}"));
    assert!(refuses("{{> @partial-block}}"));
    assert!(refuses("{{#> layout}}{{> @partial-block}}{{/layout}}"));
    assert!(refuses("{{> }}"));
    assert!(refuses("{{>}}"));
    assert!(refuses("{{>"));
    assert!(refuses("{{> "));
    assert!(refuses("{{> {{> other}}"));
}

#[test]
fn decorator_alone_is_passed() {
    assert!(!refuses("{{#*inline \"row\"}}x{{/inline}}"));
    assert!(!refuses("{{*inline}}"));
    assert!(!refuses("{{a * b}}"));
}

#[test]
fn decorator_beside_an_inclusion_is_refused() {
    assert!(refuses("{{#*inline \"row\"}}x{{/inline}}{{> row}}"));
    assert!(refuses("{{#*inline \"row\"}}{{> row}}{{/inline}}{{> row}}"));
    assert!(refuses("{{> row}}{{#*inline \"row\"}}x{{/inline}}"));
    assert!(refuses("{{> other}}{{~ # *inline \"row\"}}x{{/inline}}"));
    assert!(refuses("{{> other}}{{* x}}"));
}

#[test]
fn inject_content_refuses_a_template_that_includes_itself() {
    let outcome = inject("{{#if title}}{{> tmpl}}{{/if}}");
    assert!(matches!(outcome, Err(InjectError::RefusedTemplate)));
}

#[test]
fn inject_content_refuses_what_may_lead_back() {
    assert!(matches!(inject("{{> tmpl}}"), Err(InjectError::RefusedTemplate)));
    assert!(matches!(inject("{{> (lookup . \"title\")}}"), Err(InjectError::RefusedTemplate)));
    assert!(matches!(
        inject("{{#*inline \"row\"}}{{> row}}{{/inline}}{{> row}}"),
        Err(InjectError::RefusedTemplate)
    ));
    assert!(matches!(
        inject("{{#*inline \"row\"}}x{{/inline}}{{> row}}"),
        Err(InjectError::RefusedTemplate)
    ));
}

#[test]
fn inject_content_renders_an_inclusion_of_what_is_not_defined_as_nothing() {
    assert_eq!(inject("a{{> other}}b").expect("the template renders"), "ab");
    assert_eq!(inject("{{#if title}}{{> footer}}{{/if}}{{title}}").expect("the template renders"), "Post");
}

#[test]
fn inject_content_renders_the_block_of_an_inclusion_that_is_not_defined() {
    assert_eq!(
        inject("{{#> layout}}[{{content}}]{{/layout}}").expect("the template renders"),
        "[body]"
    );
    assert_eq!(
        inject("{{#> outer}}<{{#> inner}}{{title}}{{/inner}}>{{/outer}}").expect("the template renders"),
        "<Post>"
    );
}

#[test]
fn inject_content_renders_a_template_whose_comment_holds_an_inclusion() {
    assert_eq!(inject("{{! see {{> other}}hello").expect("the template renders"), "hello");
}

#[test]
fn inject_content_renders_a_template_that_defines_a_template_and_includes_none() {
    assert_eq!(
        inject("{{#*inline \"row\"}}x{{/inline}}{{title}}").expect("the template renders"),
        "Post"
    );
}

#[test]
fn inject_content_tells_the_engines_failure_from_its_own_refusal() {
    assert!(matches!(inject("{{#if title}}never closed"), Err(InjectError::Render(_))));
    assert!(matches!(inject("{{no_such_helper title}}"), Err(InjectError::Render(_))));
    assert!(matches!(inject("{{> other"), Err(InjectError::Render(_))));
}

#[test]
fn inject_content_renders_what_includes_nothing() {
    assert_eq!(inject("{{title}}: {{content}}").expect("the template renders"), "Post: body");
    assert_eq!(inject("a > b {{title}}").expect("the template renders"), "a > b Post");
}

#[test]
fn page_whose_template_includes_itself_is_not_found() {
    let mut app_data = app_data();
    cache_file_string(&mut app_data, String::from("post"), String::from("body"), Timestamp::new(1, 0));
    cache_file_string(
        &mut app_data,
        String::from("tmpl/base"),
        String::from("{{#if title}}{{> tmpl}}{{/if}}"),
        Timestamp::new(1, 0),
    );
    let step = update_and_get_page(&app_data, &String::from("post"), Timestamp::new(2, 0));
    match step {
        Step::Compose(composing) => {
            assert!(matches!(compose_page(&app_data, &composing), Err(FileError::FileNotFound())));
        }
        other => panic!("expected the page to be ready, got {:?}", other),
    }
}

#[test]
fn page_whose_template_includes_what_is_not_defined_is_composed() {
    let mut app_data = app_data();
    cache_file_string(&mut app_data, String::from("post"), String::from("body"), Timestamp::new(1, 0));
    cache_file_string(
        &mut app_data,
        String::from("tmpl/base"),
        String::from("{{> header}}{{content}}{{#> footer}}.{{/footer}}"),
        Timestamp::new(3, 0),
    );
    let step = update_and_get_page(&app_data, &String::from("post"), Timestamp::new(4, 0));
    match step {
        Step::Compose(composing) => {
            let page = compose_page(&app_data, &composing).expect("the page is composed");
            assert_eq!(page.content, "body.");
            assert_eq!(page.last_updated_at, Timestamp::new(3, 0));
        }
        other => panic!("expected the page to be ready, got {:?}", other),
    }
}
