//! The resolution engine: from a page's key to its text.
//!
//! A resolution looks its key up in the configuration, serves the cached
//! text while it is fresh, and otherwise has the file fetched and caches
//! what came. Fetching is the caller's part. Each function here takes the
//! resolution one step further and returns either its end or the next
//! fetch to perform; the caller performs it and calls [`resume`] with what
//! came of it. The time of each step is the caller's to give, too.
//!
//! A page is composed by the template engine. Once both its parts are
//! there, the step says so, and the caller has the page composed by
//! [`compose_page`]: a step of its own, which changes nothing and so needs
//! the state for reading only.

use crate::cache::is_fresh;
use crate::models::{
    text_of, AppData, AppDataView, ConfigView, HeaderLink, LibFile, MemoryPage, MemoryPageView,
    Timestamp,
};
use crate::source::{fetch_request, get_file_request, FetchError, FetchRequest, FetchRequestView};
use crate::template::{composed, inject_content};
use vstd::prelude::*;
use vstd::string::*;

verus! {

/// Why a resolution, or the loading of the configuration, failed.
#[derive(Debug)]
pub enum FileError {
    /// The configuration file cannot be read; the text says why.
    FileReadError(String),
    /// The configuration file is not the YAML that is expected; the text says why.
    YamlParseError(String),
    /// A local file does not exist or cannot be read.
    LocalFileNotFound(),
    /// The one outcome of a failed resolution, whatever went wrong.
    FileNotFound(),
    /// Anything else, in its own words.
    CustomMessage(String),
}

impl FileError {
    /// What the error says of itself.
    pub open spec fn message(self) -> Seq<char> {
        match self {
            FileError::FileReadError(err) => "File read error: "@ + err@,
            FileError::YamlParseError(err) => "YAML parse error: "@ + err@,
            FileError::LocalFileNotFound() => "local file not found"@,
            FileError::FileNotFound() => "file not found on the server"@,
            FileError::CustomMessage(msg) => msg@,
        }
    }

    /// The message as a string.
    pub fn to_string(&self) -> (text: String)
        ensures
            text@ == self.message(),
    {
        match self {
            FileError::FileReadError(err) => String::from_str("File read error: ").concat(err.as_str()),
            FileError::YamlParseError(err) => String::from_str("YAML parse error: ").concat(err.as_str()),
            FileError::LocalFileNotFound() => String::from_str("local file not found"),
            FileError::FileNotFound() => String::from_str("file not found on the server"),
            FileError::CustomMessage(msg) => msg.clone(),
        }
    }
}

/// What the cache says of one key at one time.
#[derive(Debug)]
pub enum Lookup {
    /// The entry is there and fresh: this is a copy of it.
    Cached(MemoryPage),
    /// There is no entry, or a stale one: the file has to be fetched.
    Fetch(FetchRequest),
}

pub enum LookupView {
    Cached(MemoryPageView),
    Fetch(FetchRequestView),
}

impl View for Lookup {
    type V = LookupView;

    open spec fn view(&self) -> LookupView {
        match self {
            Lookup::Cached(page) => LookupView::Cached(page@),
            Lookup::Fetch(request) => LookupView::Fetch(request@),
        }
    }
}

/// Which fetch a resolution waits for.
#[derive(Debug)]
pub enum Stage {
    /// A library file's.
    Library,
    /// A standalone content file's.
    Content,
    /// A composed page's body.
    PageContent,
    /// A composed page's template; the body is resolved and kept here.
    PageTemplate { body: String },
}

pub enum StageView {
    Library,
    Content,
    PageContent,
    PageTemplate { body: Seq<char> },
}

impl View for Stage {
    type V = StageView;

    open spec fn view(&self) -> StageView {
        match self {
            Stage::Library => StageView::Library,
            Stage::Content => StageView::Content,
            Stage::PageContent => StageView::PageContent,
            Stage::PageTemplate { body } => StageView::PageTemplate { body: body@ },
        }
    }
}

/// A resolution that waits for a fetch: the key that was asked for, and
/// how far the resolution has come.
#[derive(Debug)]
pub struct Pending {
    pub path: String,
    pub stage: Stage,
}

pub struct PendingView {
    pub path: Seq<char>,
    pub stage: StageView,
}

impl View for Pending {
    type V = PendingView;

    open spec fn view(&self) -> PendingView {
        PendingView { path: self.path@, stage: self.stage@ }
    }
}

/// A page whose parts are both there: the key that was asked for, the
/// body, and the template's entry.
#[derive(Debug)]
pub struct Composing {
    pub path: String,
    pub body: String,
    pub template: MemoryPage,
}

pub struct ComposingView {
    pub path: Seq<char>,
    pub body: Seq<char>,
    pub template: MemoryPageView,
}

impl View for Composing {
    type V = ComposingView;

    open spec fn view(&self) -> ComposingView {
        ComposingView { path: self.path@, body: self.body@, template: self.template@ }
    }
}

/// Where a resolution stands after a step.
#[derive(Debug)]
pub enum Step {
    /// It has ended, with the page or with the error.
    Done(Result<MemoryPage, FileError>),
    /// The caller is to perform this fetch and to resume with its outcome.
    Fetch(FetchRequest, Pending),
    /// The caller is to have the page composed; the resolution ends with
    /// what [`compose_page`] returns.
    Compose(Composing),
}

pub enum StepView {
    Done(Result<MemoryPageView, FileError>),
    Fetch(FetchRequestView, PendingView),
    Compose(ComposingView),
}

/// The view of a resolution's end.
pub open spec fn outcome_view(outcome: Result<MemoryPage, FileError>) -> Result<MemoryPageView, FileError> {
    match outcome {
        Ok(page) => Ok(page@),
        Err(error) => Err(error),
    }
}

/// The view of a fetch's outcome.
pub open spec fn fetched_view(fetched: Result<String, FetchError>) -> Result<Seq<char>, FetchError> {
    match fetched {
        Ok(text) => Ok(text@),
        Err(error) => Err(error),
    }
}

impl View for Step {
    type V = StepView;

    open spec fn view(&self) -> StepView {
        match self {
            Step::Done(outcome) => StepView::Done(outcome_view(*outcome)),
            Step::Fetch(request, pending) => StepView::Fetch(request@, pending@),
            Step::Compose(composing) => StepView::Compose(composing@),
        }
    }
}

/// The cache duration, in seconds, that applies to one entry: its own
/// override where it has one, the site default otherwise.
pub open spec fn effective_recache_seconds(page_recache_seconds: Option<u64>, default_recache_seconds: u64) -> u64 {
    match page_recache_seconds {
        Some(seconds) => seconds,
        None => default_recache_seconds,
    }
}

pub fn get_recache_seconds(page_recache_seconds: Option<u64>, default_recache_seconds: u64) -> (seconds: u64)
    ensures
        seconds == effective_recache_seconds(page_recache_seconds, default_recache_seconds),
{
    if let Some(page_recache_seconds) = page_recache_seconds {
        return page_recache_seconds;
    }
    default_recache_seconds
}

/// What a descriptor says of its file: where it is, and for how long a
/// fetched copy may be served.
pub struct SourceView {
    pub file_path: Seq<char>,
    pub github_project: Option<Seq<char>>,
    pub cache_seconds: u64,
}

/// The source that the library map describes under `key`.
pub open spec fn lib_source(config: ConfigView, key: Seq<char>) -> Option<SourceView> {
    if config.lib.contains_key(key) {
        Some(
            SourceView {
                file_path: config.lib[key].file_path,
                github_project: config.lib[key].github_project,
                cache_seconds: effective_recache_seconds(
                    config.lib[key].recache_seconds,
                    config.site_config.default_recache_seconds,
                ),
            },
        )
    } else {
        None
    }
}

/// The source that the content map describes under `key`.
pub open spec fn content_source(config: ConfigView, key: Seq<char>) -> Option<SourceView> {
    if config.content.contains_key(key) {
        Some(
            SourceView {
                file_path: config.content[key].file_path,
                github_project: config.content[key].github_project,
                cache_seconds: effective_recache_seconds(
                    config.content[key].recache_seconds,
                    config.site_config.default_recache_seconds,
                ),
            },
        )
    } else {
        None
    }
}

/// The cache is asked first: a fresh entry under `path` is served, and only
/// without one is the file's fetch requested.
pub open spec fn lookup_in_memory(app_data: AppDataView, path: Seq<char>, source: SourceView, now: Timestamp) -> LookupView {
    if app_data.memory_pages.contains_key(path) && is_fresh(
        app_data.memory_pages[path].last_updated_at,
        now,
        source.cache_seconds,
    ) {
        LookupView::Cached(app_data.memory_pages[path])
    } else {
        LookupView::Fetch(
            fetch_request(
                app_data.local_files_dir,
                app_data.github_access_token,
                source.file_path,
                source.github_project,
            ),
        )
    }
}

/// The entry that a text fetched at `now` makes.
pub open spec fn fetched_page(text: Seq<char>, now: Timestamp) -> MemoryPageView {
    MemoryPageView { content: text, last_updated_at: now }
}

/// The state after `page` was cached under `path`.
pub open spec fn with_cached(app_data: AppDataView, path: Seq<char>, page: MemoryPageView) -> AppDataView {
    AppDataView { memory_pages: app_data.memory_pages.insert(path, page), ..app_data }
}

/// What a fetch's outcome does under the key `path`: a text is cached as
/// fetched at `now` and returned; a failure leaves the cache as it was and
/// ends the resolution as not found.
pub open spec fn cache_fetched(
    app_data: AppDataView,
    path: Seq<char>,
    fetched: Result<Seq<char>, FetchError>,
    now: Timestamp,
) -> (AppDataView, Result<MemoryPageView, FileError>) {
    match fetched {
        Ok(text) => (with_cached(app_data, path, fetched_page(text, now)), Ok(fetched_page(text, now))),
        Err(_) => (app_data, Err(FileError::FileNotFound())),
    }
}

/// The first step of resolving one file: not found without a descriptor,
/// the cached page where it is fresh, the fetch otherwise.
pub open spec fn start_one(
    app_data: AppDataView,
    source: Option<SourceView>,
    path: Seq<char>,
    stage: StageView,
    now: Timestamp,
) -> StepView {
    match source {
        None => StepView::Done(Err(FileError::FileNotFound())),
        Some(source) => match lookup_in_memory(app_data, path, source, now) {
            LookupView::Cached(page) => StepView::Done(Ok(page)),
            LookupView::Fetch(request) => StepView::Fetch(request, PendingView { path, stage }),
        },
    }
}

/// The first step of resolving the library file under `path`.
pub open spec fn start_library(app_data: AppDataView, path: Seq<char>, now: Timestamp) -> StepView {
    start_one(app_data, lib_source(app_data.site_config, path), path, StageView::Library, now)
}

/// The first step of resolving the content file under `path`.
pub open spec fn start_content(app_data: AppDataView, path: Seq<char>, now: Timestamp) -> StepView {
    start_one(app_data, content_source(app_data.site_config, path), path, StageView::Content, now)
}

/// The key of the template that frames the page under `path`: there is one
/// where the content map holds the page, the page names a template, and the
/// library map holds that template.
pub open spec fn template_key(config: ConfigView, path: Seq<char>) -> Option<Seq<char>> {
    if config.content.contains_key(path) {
        match config.content[path].tmpl_html {
            Some(key) => if config.lib.contains_key(key) {
                Some(key)
            } else {
                None
            },
            None => None,
        }
    } else {
        None
    }
}

/// The end of a page's resolution for each outcome of composing: the
/// composed text where there is one, dated as the template is; not found
/// where there is none.
pub open spec fn composed_page(last_updated_at: Timestamp, injected: Option<Seq<char>>) -> Result<
    MemoryPageView,
    FileError,
> {
    match injected {
        Some(text) => Ok(MemoryPageView { content: text, last_updated_at }),
        None => Err(FileError::FileNotFound()),
    }
}

/// Whether composing may come to `injected`. It may always fail. A text is
/// the one that [`composed`] names for the template, the body and the page
/// that the content map holds under the key; there is none for a page
/// that the map does not hold, nor for a template that is refused.
pub open spec fn may_compose(config: ConfigView, composing: ComposingView, injected: Option<Seq<char>>) -> bool {
    match injected {
        Some(text) => {
            &&& config.content.contains_key(composing.path)
            &&& composed(
                composing.template.content,
                composing.body,
                config.content[composing.path].pinned_posts,
                config.content[composing.path].title,
                config,
            ) == Some(text)
        },
        None => true,
    }
}

/// The step that follows a page's body: its template is looked up, and the
/// page is ready to be composed where the template is cached and fresh.
pub open spec fn template_step(app_data: AppDataView, path: Seq<char>, body: Seq<char>, now: Timestamp) -> StepView {
    let key = template_key(app_data.site_config, path)->0;
    match lookup_in_memory(app_data, key, lib_source(app_data.site_config, key)->0, now) {
        LookupView::Cached(template) => StepView::Compose(ComposingView { path, body, template }),
        LookupView::Fetch(request) => StepView::Fetch(
            request,
            PendingView { path, stage: StageView::PageTemplate { body } },
        ),
    }
}

/// The first step of resolving the composed page under `path`: not found
/// without a page, a template key or a template; otherwise the body is
/// looked up and, where it is cached and fresh, the template after it.
pub open spec fn start_page(app_data: AppDataView, path: Seq<char>, now: Timestamp) -> StepView {
    if template_key(app_data.site_config, path) is Some {
        match lookup_in_memory(app_data, path, content_source(app_data.site_config, path)->0, now) {
            LookupView::Cached(content) => template_step(app_data, path, content.content, now),
            LookupView::Fetch(request) => StepView::Fetch(
                request,
                PendingView { path, stage: StageView::PageContent },
            ),
        }
    } else {
        StepView::Done(Err(FileError::FileNotFound()))
    }
}

/// The step that follows a fetch: the state it leaves and where the
/// resolution then stands.
///
/// Whatever was fetched, a resolution whose key the configuration does not
/// describe ends as not found and leaves the cache as it was. A failed fetch
/// ends the resolution as not found. A fetched text is cached under the key
/// it was fetched for; a single file's resolution ends with it, a page's
/// goes on to its template or is ready to be composed.
pub open spec fn resume_step(
    app_data: AppDataView,
    pending: PendingView,
    fetched: Result<Seq<char>, FetchError>,
    now: Timestamp,
) -> (AppDataView, StepView) {
    let path = pending.path;
    let not_found = (app_data, StepView::Done(Err(FileError::FileNotFound())));
    match pending.stage {
        StageView::Library => if app_data.site_config.lib.contains_key(path) {
            (cache_fetched(app_data, path, fetched, now).0, StepView::Done(cache_fetched(app_data, path, fetched, now).1))
        } else {
            not_found
        },
        StageView::Content => if app_data.site_config.content.contains_key(path) {
            (cache_fetched(app_data, path, fetched, now).0, StepView::Done(cache_fetched(app_data, path, fetched, now).1))
        } else {
            not_found
        },
        StageView::PageContent => match (template_key(app_data.site_config, path), fetched) {
            (Some(_), Ok(text)) => {
                let cached = with_cached(app_data, path, fetched_page(text, now));
                (cached, template_step(cached, path, text, now))
            },
            _ => not_found,
        },
        StageView::PageTemplate { body } => match (template_key(app_data.site_config, path), fetched) {
            (Some(key), Ok(text)) => (
                with_cached(app_data, key, fetched_page(text, now)),
                StepView::Compose(ComposingView { path, body, template: fetched_page(text, now) }),
            ),
            _ => not_found,
        },
    }
}

/// Asks the cache for `path`: a copy of the entry where it is fresh at
/// `now` under `cache_time`, else the request that fetches the file.
pub fn update_and_get_in_memory(
    app_data: &AppData,
    path: &String,
    content_file_path: &String,
    github_project: &Option<String>,
    cache_time: u64,
    now: Timestamp,
) -> (lookup: Lookup)
    ensures
        lookup@ == lookup_in_memory(
            app_data@,
            path@,
            SourceView {
                file_path: content_file_path@,
                github_project: text_of(*github_project),
                cache_seconds: cache_time,
            },
            now,
        ),
{
    if let Some(memory_page) = app_data.memory_pages.get(path.as_str()) {
        if memory_page.is_fresh(now, cache_time) {
            return Lookup::Cached(memory_page);
        }
    }
    Lookup::Fetch(
        get_file_request(
            app_data.local_files_dir.as_str(),
            app_data.github_access_token.as_str(),
            content_file_path.as_str(),
            github_project,
        ),
    )
}

/// Caches `file_string` under `path` as fetched at `now`, in place of any
/// earlier entry, and returns a copy of the new entry.
pub fn cache_file_string(app_data: &mut AppData, path: String, file_string: String, now: Timestamp) -> (page: MemoryPage)
    ensures
        page@ == fetched_page(file_string@, now),
        final(app_data)@ == with_cached(old(app_data)@, path@, page@),
{
    app_data.memory_pages.put(path, file_string, now)
}

/// Takes a fetch's outcome under the key `path`: caches a text and returns
/// its entry; ends as not found on a failure, with the cache untouched.
pub fn cache_fetched_file(
    app_data: &mut AppData,
    path: &String,
    fetched: Result<String, FetchError>,
    now: Timestamp,
) -> (outcome: Result<MemoryPage, FileError>)
    ensures
        final(app_data)@ == cache_fetched(old(app_data)@, path@, fetched_view(fetched), now).0,
        outcome_view(outcome) == cache_fetched(old(app_data)@, path@, fetched_view(fetched), now).1,
{
    match fetched {
        Ok(file_string) => Ok(cache_file_string(app_data, path.clone(), file_string, now)),
        Err(_) => Err(FileError::FileNotFound()),
    }
}

fn start_with(
    app_data: &AppData,
    path: &String,
    content_file_path: &String,
    github_project: &Option<String>,
    cache_time: u64,
    stage: Stage,
    now: Timestamp,
) -> (step: Step)
    ensures
        step@ == start_one(
            app_data@,
            Some(
                SourceView {
                    file_path: content_file_path@,
                    github_project: text_of(*github_project),
                    cache_seconds: cache_time,
                },
            ),
            path@,
            stage@,
            now,
        ),
{
    match update_and_get_in_memory(app_data, path, content_file_path, github_project, cache_time, now) {
        Lookup::Cached(page) => Step::Done(Ok(page)),
        Lookup::Fetch(request) => Step::Fetch(request, Pending { path: path.clone(), stage }),
    }
}

/// Begins the resolution of the library file under `path`.
pub fn update_and_get_lib_page(app_data: &AppData, path: &String, now: Timestamp) -> (step: Step)
    ensures
        step@ == start_library(app_data@, path@, now),
{
    if let Some(page) = app_data.site_config.lib.get(path.as_str()) {
        start_with(
            app_data,
            path,
            &page.file_path,
            &page.github_project,
            get_recache_seconds(page.recache_seconds, app_data.site_config.site_config.default_recache_seconds),
            Stage::Library,
            now,
        )
    } else {
        Step::Done(Err(FileError::FileNotFound()))
    }
}

/// Begins the resolution of the content file under `path`, on its own and
/// without a template.
pub fn update_and_get_content(app_data: &AppData, path: &String, now: Timestamp) -> (step: Step)
    ensures
        step@ == start_content(app_data@, path@, now),
{
    if let Some(page) = app_data.site_config.content.get(path.as_str()) {
        start_with(
            app_data,
            path,
            &page.file_path,
            &page.github_project,
            get_recache_seconds(page.recache_seconds, app_data.site_config.site_config.default_recache_seconds),
            Stage::Content,
            now,
        )
    } else {
        Step::Done(Err(FileError::FileNotFound()))
    }
}

/// The end of a page's resolution for each outcome of composing: the
/// composed text dated as the template was, or not found.
pub fn get_composed_page(injected: Option<String>, last_updated_at: Timestamp) -> (outcome: Result<MemoryPage, FileError>)
    ensures
        outcome_view(outcome) == composed_page(last_updated_at, text_of(injected)),
{
    match injected {
        Some(content) => Ok(MemoryPage { content, last_updated_at }),
        None => Err(FileError::FileNotFound()),
    }
}

/// Has a page composed whose parts are both there.
///
/// The engine decides whether there is a text. Where there is one, the
/// page holds it and is dated as the template is; the text is the one that
/// [`composed`] names. Every failure is not found: a key that the content
/// map does not hold, a template that is refused, and whatever the engine
/// fails on.
pub fn compose_page(app_data: &AppData, composing: &Composing) -> (outcome: Result<MemoryPage, FileError>)
    ensures
        exists|injected: Option<Seq<char>>| #[trigger]
            may_compose(app_data@.site_config, composing@, injected) && outcome_view(outcome)
                == composed_page(composing@.template.last_updated_at, injected),
{
    let injected = match app_data.site_config.content.get(composing.path.as_str()) {
        Some(page) => match inject_content(
            &composing.template.content,
            &composing.body,
            &page.pinned_posts,
            &page.title,
            app_data,
        ) {
            Ok(injected) => Some(injected),
            Err(_) => None,
        },
        None => None,
    };
    let ghost came = text_of(injected);
    let outcome = get_composed_page(injected, composing.template.last_updated_at);
    assert(may_compose(app_data@.site_config, composing@, came) && outcome_view(outcome) == composed_page(
        composing@.template.last_updated_at,
        came,
    ));
    outcome
}

fn continue_with_template(
    app_data: &AppData,
    path: &String,
    tmpl_html: &String,
    lib_page: &LibFile,
    body: String,
    now: Timestamp,
) -> (step: Step)
    requires
        template_key(app_data@.site_config, path@) == Some(tmpl_html@),
        app_data@.site_config.lib[tmpl_html@] == lib_page@,
    ensures
        step@ == template_step(app_data@, path@, body@, now),
{
    let lib_file_string = update_and_get_in_memory(
        app_data,
        tmpl_html,
        &lib_page.file_path,
        &lib_page.github_project,
        get_recache_seconds(lib_page.recache_seconds, app_data.site_config.site_config.default_recache_seconds),
        now,
    );
    match lib_file_string {
        Lookup::Cached(template) => Step::Compose(Composing { path: path.clone(), body, template }),
        Lookup::Fetch(request) => Step::Fetch(
            request,
            Pending { path: path.clone(), stage: Stage::PageTemplate { body } },
        ),
    }
}

/// Begins the resolution of the composed page under `path`.
pub fn update_and_get_page(app_data: &AppData, path: &String, now: Timestamp) -> (step: Step)
    ensures
        step@ == start_page(app_data@, path@, now),
{
    if let Some(page) = app_data.site_config.content.get(path.as_str()) {
        if let Some(tmpl_html) = &page.tmpl_html {
            if let Some(lib_page) = app_data.site_config.lib.get(tmpl_html.as_str()) {
                let content_string = update_and_get_in_memory(
                    app_data,
                    path,
                    &page.file_path,
                    &page.github_project,
                    get_recache_seconds(
                        page.recache_seconds,
                        app_data.site_config.site_config.default_recache_seconds,
                    ),
                    now,
                );
                return match content_string {
                    Lookup::Cached(content) => continue_with_template(
                        app_data,
                        path,
                        tmpl_html,
                        lib_page,
                        content.content,
                        now,
                    ),
                    Lookup::Fetch(request) => Step::Fetch(
                        request,
                        Pending { path: path.clone(), stage: Stage::PageContent },
                    ),
                };
            }
        }
    }
    Step::Done(Err(FileError::FileNotFound()))
}

/// Takes a resolution on from the fetch it waited for. What was fetched is
/// cached here; a page is not composed here.
pub fn resume(app_data: &mut AppData, pending: Pending, fetched: Result<String, FetchError>, now: Timestamp) -> (step: Step)
    ensures
        final(app_data)@ == resume_step(old(app_data)@, pending@, fetched_view(fetched), now).0,
        step@ == resume_step(old(app_data)@, pending@, fetched_view(fetched), now).1,
{
    let Pending { path, stage } = pending;
    match stage {
        Stage::Library => {
            if app_data.site_config.lib.contains_key(path.as_str()) {
                return Step::Done(cache_fetched_file(app_data, &path, fetched, now));
            }
        },
        Stage::Content => {
            if app_data.site_config.content.contains_key(path.as_str()) {
                return Step::Done(cache_fetched_file(app_data, &path, fetched, now));
            }
        },
        Stage::PageContent => {
            if let Some(page) = app_data.site_config.content.get(path.as_str()) {
                if let Some(tmpl_html) = &page.tmpl_html {
                    if let Some(lib_page) = app_data.site_config.lib.get(tmpl_html.as_str()) {
                        if let Ok(file_string) = fetched {
                            let body = file_string.clone();
                            app_data.memory_pages.put(path.clone(), file_string, now);
                            return continue_with_template(app_data, &path, tmpl_html, lib_page, body, now);
                        }
                    }
                }
            }
        },
        Stage::PageTemplate { body } => {
            if let Some(page) = app_data.site_config.content.get(path.as_str()) {
                if let Some(tmpl_html) = &page.tmpl_html {
                    if app_data.site_config.lib.contains_key(tmpl_html.as_str()) {
                        if let Ok(file_string) = fetched {
                            let template = app_data.memory_pages.put(tmpl_html.clone(), file_string, now);
                            return Step::Compose(Composing { path, body, template });
                        }
                    }
                }
            }
        },
    }
    Step::Done(Err(FileError::FileNotFound()))
}

/// The header's navigation links, in their order.
pub fn get_header_links(app_data: &AppData) -> (links: &Vec<HeaderLink>)
    ensures
        links@.map_values(|link: HeaderLink| link@) == app_data@.site_config.header.links,
{
    &app_data.site_config.header.links
}

} // verus!
