//! Composition: the data a template is rendered against, and the rendering.
//!
//! The data is assembled and turned into JSON here, step by step and under
//! proof. The template language itself belongs to the `handlebars` crate:
//! the text it makes of a template and its data is named by [`rendered`]
//! and taken on trust.

use crate::json::{
    json_array, json_model, json_models, json_null, json_object, json_text, object_fields,
    JsonModel,
};
use crate::models::{
    clone_text, text_list_of, text_of, texts_of, AppData, Config, ConfigView, HeaderLink,
    HeaderLinkView, HeaderSocial, HeaderSocialView, PageView,
};
use crate::partial::{is_refused, refuses};
use handlebars::{Handlebars, RenderError};
use serde_json::Value;
use vstd::prelude::*;
use vstd::string::*;

verus! {

/// The summary of one pinned page, as a template sees it.
#[derive(Debug)]
pub struct PinnedPost {
    pub title: String,
    pub description: Option<String>,
    pub date: Option<String>,
    /// The key of the page in the content map.
    pub link: String,
}

pub struct PinnedPostView {
    pub title: Seq<char>,
    pub description: Option<Seq<char>>,
    pub date: Option<Seq<char>>,
    pub link: Seq<char>,
}

impl View for PinnedPost {
    type V = PinnedPostView;

    open spec fn view(&self) -> PinnedPostView {
        PinnedPostView {
            title: self.title@,
            description: text_of(self.description),
            date: text_of(self.date),
            link: self.link@,
        }
    }
}

/// Everything a template is rendered against.
#[derive(Debug)]
pub struct TemplateContent {
    pub content: String,
    pub header_links: Vec<HeaderLink>,
    pub header_socials: Vec<HeaderSocial>,
    pub site_title: String,
    pub title: String,
    pub pinned_posts: Vec<PinnedPost>,
}

pub struct TemplateContentView {
    pub content: Seq<char>,
    pub header_links: Seq<HeaderLinkView>,
    pub header_socials: Seq<HeaderSocialView>,
    pub site_title: Seq<char>,
    pub title: Seq<char>,
    pub pinned_posts: Seq<PinnedPostView>,
}

impl View for TemplateContent {
    type V = TemplateContentView;

    open spec fn view(&self) -> TemplateContentView {
        TemplateContentView {
            content: self.content@,
            header_links: self.header_links@.map_values(|link: HeaderLink| link@),
            header_socials: self.header_socials@.map_values(|social: HeaderSocial| social@),
            site_title: self.site_title@,
            title: self.title@,
            pinned_posts: self.pinned_posts@.map_values(|post: PinnedPost| post@),
        }
    }
}

/// The summary of the page `page` that the content map holds under `link`.
pub open spec fn pinned_post(link: Seq<char>, page: PageView) -> PinnedPostView {
    PinnedPostView { title: page.title, description: page.description, date: page.date, link }
}

/// Those of `links` that the content map holds, in their order.
pub open spec fn held_links(links: Seq<Seq<char>>, content: Map<Seq<char>, PageView>) -> Seq<Seq<char>> {
    links.filter(|link: Seq<char>| content.contains_key(link))
}

/// The summaries of the pages that `links` refer to, in the order of
/// `links`. A link that the content map does not hold contributes nothing.
pub open spec fn pinned_posts(links: Seq<Seq<char>>, content: Map<Seq<char>, PageView>) -> Seq<PinnedPostView> {
    held_links(links, content).map_values(|link: Seq<char>| pinned_post(link, content[link]))
}

/// The data against which the page titled `title`, with body `body` and the
/// pinned references `pinned_links`, is rendered under `config`.
pub open spec fn template_content(
    body: Seq<char>,
    pinned_links: Option<Seq<Seq<char>>>,
    title: Seq<char>,
    config: ConfigView,
) -> TemplateContentView {
    TemplateContentView {
        content: body,
        header_links: config.header.links,
        header_socials: config.header.socials,
        site_title: config.site_config.title,
        title,
        pinned_posts: match pinned_links {
            Some(links) => pinned_posts(links, config.content),
            None => Seq::empty(),
        },
    }
}

/// A header link as JSON.
pub open spec fn link_json(link: HeaderLinkView) -> JsonModel {
    JsonModel::Object(map!["path"@ => JsonModel::Text(link.path), "name"@ => JsonModel::Text(link.name)])
}

/// A social link as JSON.
pub open spec fn social_json(social: HeaderSocialView) -> JsonModel {
    JsonModel::Object(map!["name"@ => JsonModel::Text(social.name), "url"@ => JsonModel::Text(social.url)])
}

/// An optional text as JSON: the text, or `null` where there is none.
pub open spec fn optional_text_json(text: Option<Seq<char>>) -> JsonModel {
    match text {
        Some(text) => JsonModel::Text(text),
        None => JsonModel::Null,
    }
}

/// A pinned-post summary as JSON.
pub open spec fn pinned_post_json(post: PinnedPostView) -> JsonModel {
    JsonModel::Object(
        map![
            "title"@ => JsonModel::Text(post.title),
            "description"@ => optional_text_json(post.description),
            "date"@ => optional_text_json(post.date),
            "link"@ => JsonModel::Text(post.link),
        ],
    )
}

/// The whole rendering data as JSON: one object, whose keys are the names
/// that a template refers to.
pub open spec fn context_json(context: TemplateContentView) -> JsonModel {
    JsonModel::Object(
        map![
            "content"@ => JsonModel::Text(context.content),
            "header_links"@ => JsonModel::Array(context.header_links.map_values(|link: HeaderLinkView| link_json(link))),
            "header_socials"@ => JsonModel::Array(context.header_socials.map_values(|social: HeaderSocialView| social_json(social))),
            "site_title"@ => JsonModel::Text(context.site_title),
            "title"@ => JsonModel::Text(context.title),
            "pinned_posts"@ => JsonModel::Array(context.pinned_posts.map_values(|post: PinnedPostView| pinned_post_json(post))),
        ],
    )
}

/// The text that composing gives for a page, where it gives one: what the
/// engine makes of `template` against the page's data. There is none for a
/// template that is refused.
pub open spec fn composed(
    template: Seq<char>,
    body: Seq<char>,
    pinned_links: Option<Seq<Seq<char>>>,
    title: Seq<char>,
    config: ConfigView,
) -> Option<Seq<char>> {
    if is_refused(template) {
        None
    } else {
        Some(rendered(template, context_json(template_content(body, pinned_links, title, config))))
    }
}

/// `handlebars::RenderError`: why the engine could not register or render
/// a template. Nothing is read from it.
#[verifier::external_type_specification]
#[verifier::external_body]
pub struct ExRenderError(handlebars::RenderError);

/// The text that the template engine makes of `template` when it is
/// registered under the name `tmpl` in a fresh registry and rendered
/// against `data`, where it makes one. It says nothing of whether a given
/// call succeeds: the engine fails on what it cannot parse or render, and
/// may also fail for want of stack.
pub uninterp spec fn rendered(template: Seq<char>, data: JsonModel) -> Seq<char>;

/// `Handlebars::new`, `register_template_string` and `render`, as one step.
/// The contract claims that a text, where one comes back, depends on the
/// template's text and on the tree of `data` alone, and gives it its name.
/// It claims nothing of what the text is, nor of when the engine fails. A
/// template that is refused is left out: on such a one the engine may
/// follow an inclusion without end and never return.
#[verifier::external_body]
pub(crate) fn render_template(template: &str, data: &Value) -> (outcome: Result<String, RenderError>)
    requires
        !is_refused(template@),
    ensures
        outcome matches Ok(text) ==> rendered(template@, json_model(*data)) == text@,
{
    let mut registry = Handlebars::new();
    registry.register_template_string("tmpl", template)?;
    registry.render("tmpl", data)
}

/// Why a page was not composed.
#[derive(Debug)]
pub enum InjectError {
    /// The template is one on which the engine may not return. It was not
    /// handed to the engine.
    RefusedTemplate,
    /// The engine could not render the template.
    Render(RenderError),
}

fn link_to_json(link: &HeaderLink) -> (value: Value)
    ensures
        json_model(value) == link_json(link@),
{
    let mut fields: Vec<(String, Value)> = Vec::new();
    fields.push((String::from_str("path"), json_text(link.path.as_str())));
    fields.push((String::from_str("name"), json_text(link.name.as_str())));
    proof {
        reveal_strlit("path");
        reveal_strlit("name");
        reveal_with_fuel(object_fields, 3);
        assert("path"@[0] != "name"@[0]);
        assert(object_fields(fields@) =~= link_json(link@)->Object_0);
    }
    json_object(fields)
}

fn social_to_json(social: &HeaderSocial) -> (value: Value)
    ensures
        json_model(value) == social_json(social@),
{
    let mut fields: Vec<(String, Value)> = Vec::new();
    fields.push((String::from_str("name"), json_text(social.name.as_str())));
    fields.push((String::from_str("url"), json_text(social.url.as_str())));
    proof {
        reveal_strlit("name");
        reveal_strlit("url");
        reveal_with_fuel(object_fields, 3);
        assert("name"@.len() != "url"@.len());
        assert(object_fields(fields@) =~= social_json(social@)->Object_0);
    }
    json_object(fields)
}

fn optional_text_to_json(text: &Option<String>) -> (value: Value)
    ensures
        json_model(value) == optional_text_json(text_of(*text)),
{
    match text {
        Some(text) => json_text(text.as_str()),
        None => json_null(),
    }
}

fn pinned_post_to_json(post: &PinnedPost) -> (value: Value)
    ensures
        json_model(value) == pinned_post_json(post@),
{
    let mut fields: Vec<(String, Value)> = Vec::new();
    fields.push((String::from_str("title"), json_text(post.title.as_str())));
    fields.push((String::from_str("description"), optional_text_to_json(&post.description)));
    fields.push((String::from_str("date"), optional_text_to_json(&post.date)));
    fields.push((String::from_str("link"), json_text(post.link.as_str())));
    proof {
        reveal_strlit("title");
        reveal_strlit("description");
        reveal_strlit("date");
        reveal_strlit("link");
        reveal_with_fuel(object_fields, 5);
        assert("title"@.len() == 5 && "description"@.len() == 11 && "date"@.len() == 4);
        assert("date"@[0] != "link"@[0]);
        assert(object_fields(fields@) =~= pinned_post_json(post@)->Object_0);
    }
    json_object(fields)
}

fn links_to_json(links: &Vec<HeaderLink>) -> (value: Value)
    ensures
        json_model(value) == JsonModel::Array(
            links@.map_values(|link: HeaderLink| link@).map_values(|link: HeaderLinkView| link_json(link)),
        ),
{
    let mut items: Vec<Value> = Vec::new();
    let mut i: usize = 0;
    while i < links.len()
        invariant
            i <= links.len(),
            items.len() == i,
            forall|j: int| 0 <= j < i ==> json_model(#[trigger] items[j]) == link_json(links[j]@),
        decreases links.len() - i,
    {
        items.push(link_to_json(&links[i]));
        i += 1;
    }
    assert(json_models(items@) =~= links@.map_values(|link: HeaderLink| link@).map_values(
        |link: HeaderLinkView| link_json(link),
    ));
    json_array(items)
}

fn socials_to_json(socials: &Vec<HeaderSocial>) -> (value: Value)
    ensures
        json_model(value) == JsonModel::Array(
            socials@.map_values(|social: HeaderSocial| social@).map_values(
                |social: HeaderSocialView| social_json(social),
            ),
        ),
{
    let mut items: Vec<Value> = Vec::new();
    let mut i: usize = 0;
    while i < socials.len()
        invariant
            i <= socials.len(),
            items.len() == i,
            forall|j: int| 0 <= j < i ==> json_model(#[trigger] items[j]) == social_json(socials[j]@),
        decreases socials.len() - i,
    {
        items.push(social_to_json(&socials[i]));
        i += 1;
    }
    assert(json_models(items@) =~= socials@.map_values(|social: HeaderSocial| social@).map_values(
        |social: HeaderSocialView| social_json(social),
    ));
    json_array(items)
}

fn pinned_posts_to_json(posts: &Vec<PinnedPost>) -> (value: Value)
    ensures
        json_model(value) == JsonModel::Array(
            posts@.map_values(|post: PinnedPost| post@).map_values(|post: PinnedPostView| pinned_post_json(post)),
        ),
{
    let mut items: Vec<Value> = Vec::new();
    let mut i: usize = 0;
    while i < posts.len()
        invariant
            i <= posts.len(),
            items.len() == i,
            forall|j: int| 0 <= j < i ==> json_model(#[trigger] items[j]) == pinned_post_json(posts[j]@),
        decreases posts.len() - i,
    {
        items.push(pinned_post_to_json(&posts[i]));
        i += 1;
    }
    assert(json_models(items@) =~= posts@.map_values(|post: PinnedPost| post@).map_values(
        |post: PinnedPostView| pinned_post_json(post),
    ));
    json_array(items)
}

/// Turns the rendering data into the JSON value that the engine takes.
pub fn context_to_json(context: &TemplateContent) -> (value: Value)
    ensures
        json_model(value) == context_json(context@),
{
    let mut fields: Vec<(String, Value)> = Vec::new();
    fields.push((String::from_str("content"), json_text(context.content.as_str())));
    fields.push((String::from_str("header_links"), links_to_json(&context.header_links)));
    fields.push((String::from_str("header_socials"), socials_to_json(&context.header_socials)));
    fields.push((String::from_str("site_title"), json_text(context.site_title.as_str())));
    fields.push((String::from_str("title"), json_text(context.title.as_str())));
    fields.push((String::from_str("pinned_posts"), pinned_posts_to_json(&context.pinned_posts)));
    proof {
        reveal_strlit("content");
        reveal_strlit("header_links");
        reveal_strlit("header_socials");
        reveal_strlit("site_title");
        reveal_strlit("title");
        reveal_strlit("pinned_posts");
        reveal_with_fuel(object_fields, 7);
        assert("content"@.len() == 7 && "header_links"@.len() == 12 && "header_socials"@.len() == 14);
        assert("site_title"@.len() == 10 && "title"@.len() == 5 && "pinned_posts"@.len() == 12);
        assert("header_links"@[0] != "pinned_posts"@[0]);
        assert(object_fields(fields@) =~= context_json(context@)->Object_0);
    }
    json_object(fields)
}

/// The views of a list of summaries, in order.
pub open spec fn pinned_post_views(posts: Seq<PinnedPost>) -> Seq<PinnedPostView> {
    posts.map_values(|post: PinnedPost| post@)
}

/// One more link at the end is kept where the content map holds it.
pub proof fn lemma_held_links_push(links: Seq<Seq<char>>, link: Seq<char>, content: Map<Seq<char>, PageView>)
    ensures
        held_links(links.push(link), content) == if content.contains_key(link) {
            held_links(links, content).push(link)
        } else {
            held_links(links, content)
        },
{
    links.lemma_filter_push(link, |link: Seq<char>| content.contains_key(link));
}

/// One more link at the end adds its summary at the end where the content
/// map holds the link, and nothing where it does not.
pub proof fn lemma_pinned_posts_push(links: Seq<Seq<char>>, link: Seq<char>, content: Map<Seq<char>, PageView>)
    ensures
        pinned_posts(links.push(link), content) == if content.contains_key(link) {
            pinned_posts(links, content).push(pinned_post(link, content[link]))
        } else {
            pinned_posts(links, content)
        },
{
    lemma_held_links_push(links, link, content);
    if content.contains_key(link) {
        assert(pinned_posts(links.push(link), content) =~= pinned_posts(links, content).push(
            pinned_post(link, content[link]),
        ));
    }
}

/// Resolves a page's pinned references into summaries. A reference that the
/// content map does not hold is passed over.
pub fn get_pinned_posts(pinned_post_links: &Vec<String>, config: &Config) -> (posts: Vec<PinnedPost>)
    ensures
        pinned_post_views(posts@) == pinned_posts(texts_of(pinned_post_links@), config@.content),
{
    let mut posts: Vec<PinnedPost> = Vec::new();
    let mut i: usize = 0;
    assert(texts_of(pinned_post_links@).take(0) =~= Seq::empty());
    assert(pinned_post_views(posts@) =~= pinned_posts(Seq::empty(), config@.content)) by {
        reveal(Seq::filter);
    }
    while i < pinned_post_links.len()
        invariant
            i <= pinned_post_links.len(),
            pinned_post_views(posts@) == pinned_posts(
                texts_of(pinned_post_links@).take(i as int),
                config@.content,
            ),
        decreases pinned_post_links.len() - i,
    {
        let post_link = &pinned_post_links[i];
        let ghost before = texts_of(pinned_post_links@).take(i as int);
        proof {
            assert(texts_of(pinned_post_links@).take(i + 1) =~= before.push(post_link@));
            lemma_pinned_posts_push(before, post_link@, config@.content);
        }
        if let Some(page) = config.content.get(post_link.as_str()) {
            let ghost earlier = posts@;
            posts.push(
                PinnedPost {
                    title: page.title.clone(),
                    description: clone_text(&page.description),
                    date: clone_text(&page.date),
                    link: post_link.clone(),
                },
            );
            assert(pinned_post_views(posts@) =~= pinned_post_views(earlier).push(
                pinned_post(post_link@, config@.content[post_link@]),
            ));
        }
        i += 1;
    }
    assert(texts_of(pinned_post_links@).take(i as int) =~= texts_of(pinned_post_links@));
    posts
}

fn clone_links(links: &Vec<HeaderLink>) -> (copy: Vec<HeaderLink>)
    ensures
        copy@.map_values(|link: HeaderLink| link@) == links@.map_values(|link: HeaderLink| link@),
{
    let mut copy: Vec<HeaderLink> = Vec::new();
    let mut i: usize = 0;
    while i < links.len()
        invariant
            i <= links.len(),
            copy.len() == i,
            forall|j: int| 0 <= j < i ==> (#[trigger] copy[j])@ == links[j]@,
        decreases links.len() - i,
    {
        copy.push(links[i].clone());
        i += 1;
    }
    assert(copy@.map_values(|link: HeaderLink| link@) =~= links@.map_values(|link: HeaderLink| link@));
    copy
}

fn clone_socials(socials: &Option<Vec<HeaderSocial>>) -> (copy: Vec<HeaderSocial>)
    ensures
        copy@.map_values(|social: HeaderSocial| social@) == match *socials {
            Some(socials) => socials@.map_values(|social: HeaderSocial| social@),
            None => Seq::empty(),
        },
{
    let mut copy: Vec<HeaderSocial> = Vec::new();
    match socials {
        Some(socials) => {
            let mut i: usize = 0;
            while i < socials.len()
                invariant
                    i <= socials.len(),
                    copy.len() == i,
                    forall|j: int| 0 <= j < i ==> (#[trigger] copy[j])@ == socials[j]@,
                decreases socials.len() - i,
            {
                copy.push(socials[i].clone());
                i += 1;
            }
            assert(copy@.map_values(|social: HeaderSocial| social@) =~= socials@.map_values(
                |social: HeaderSocial| social@,
            ));
        },
        None => {
            assert(copy@.map_values(|social: HeaderSocial| social@) =~= Seq::empty());
        },
    }
    copy
}

/// Assembles the data against which a page is rendered.
pub fn get_template_content(
    config_string: &String,
    pinned_post_links_option: &Option<Vec<String>>,
    title: &String,
    config: &Config,
) -> (context: TemplateContent)
    ensures
        context@ == template_content(
            config_string@,
            text_list_of(*pinned_post_links_option),
            title@,
            config@,
        ),
{
    let pinned_posts = match pinned_post_links_option {
        Some(pinned_post_links) => get_pinned_posts(pinned_post_links, config),
        None => Vec::new(),
    };
    assert(pinned_post_links_option is None ==> pinned_post_views(pinned_posts@) =~= Seq::empty());
    TemplateContent {
        content: config_string.clone(),
        header_links: clone_links(&config.header.links),
        header_socials: clone_socials(&config.header.socials),
        site_title: config.site_config.title.clone(),
        title: title.clone(),
        pinned_posts,
    }
}

/// Composes a page: renders the template `tmpl_file` against the body
/// `config_string`, the page's title and pinned references, and the site's
/// header and title.
///
/// A template on which the engine may not return is refused, as
/// [`is_refused`] says, and no other is. Every other template is handed to
/// the engine, which decides; a text that comes back is the engine's for
/// this template and this data.
pub fn inject_content(
    tmpl_file: &String,
    config_string: &String,
    pinned_post_links_option: &Option<Vec<String>>,
    title: &String,
    app_data: &AppData,
) -> (outcome: Result<String, InjectError>)
    ensures
        (outcome matches Err(InjectError::RefusedTemplate)) <==> is_refused(tmpl_file@),
        outcome matches Ok(text) ==> composed(
            tmpl_file@,
            config_string@,
            text_list_of(*pinned_post_links_option),
            title@,
            app_data@.site_config,
        ) == Some(text@),
{
    if refuses(tmpl_file.as_str()) {
        return Err(InjectError::RefusedTemplate);
    }
    let template_config = get_template_content(
        config_string,
        pinned_post_links_option,
        title,
        &app_data.site_config,
    );
    let data = context_to_json(&template_config);
    match render_template(tmpl_file.as_str(), &data) {
        Ok(text) => Ok(text),
        Err(error) => Err(InjectError::Render(error)),
    }
}

} // verus!
