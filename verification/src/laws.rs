//! What holds of every resolution, stated over whole runs and proved.
//!
//! A run is a first step and the steps that follow the fetches it asks
//! for. The caller answers each fetch with a [`FetchEvent`]: what came of
//! it, and when. No resolution asks for more than two. A page's run ends
//! with composing, once at most; what composing comes to is the run's last
//! input, `injected`: the text, or `None` where the engine fails or the
//! library refuses the template.

use crate::cache::{is_fresh, NANOS_PER_SECOND};
use crate::models::{AppDataView, ConfigView, PageView, Timestamp};
use crate::page_domain::{
    composed_page, content_source, fetched_page, lib_source, may_compose, resume_step,
    start_content, start_library, start_page, template_key, with_cached, ComposingView,
    FileError, PendingView, StageView, StepView,
};
use crate::partial::is_refused;
use crate::source::{fetch_request, FetchError};
use crate::template::{
    composed, context_json, held_links, lemma_held_links_push, pinned_post, pinned_posts,
    rendered, template_content,
};
use vstd::prelude::*;

verus! {

/// The answer to one fetch: what came of it, and when it came.
pub struct FetchEvent {
    pub fetched: Result<Seq<char>, FetchError>,
    pub at: Timestamp,
}

/// A run so far: the state, where the resolution stands, how many fetches
/// were answered, and the time of the last step.
pub struct Progress {
    pub app_data: AppDataView,
    pub step: StepView,
    pub fetches: nat,
    pub at: Timestamp,
}

/// A run that has taken its first step at `now` and nothing more.
pub open spec fn begun(app_data: AppDataView, step: StepView, now: Timestamp) -> Progress {
    Progress { app_data, step, fetches: 0, at: now }
}

/// The run after the next answer. A run that waits for no fetch stays as
/// it is and leaves the answer unused.
pub open spec fn advance(progress: Progress, event: FetchEvent) -> Progress {
    match progress.step {
        StepView::Fetch(_, pending) => Progress {
            app_data: resume_step(progress.app_data, pending, event.fetched, event.at).0,
            step: resume_step(progress.app_data, pending, event.fetched, event.at).1,
            fetches: progress.fetches + 1,
            at: event.at,
        },
        _ => progress,
    }
}

/// The run after composing came to `injected`. A run that is not ready to
/// compose stays as it is.
pub open spec fn conclude(progress: Progress, injected: Option<Seq<char>>) -> Progress {
    match progress.step {
        StepView::Compose(composing) => Progress {
            step: StepView::Done(composed_page(composing.template.last_updated_at, injected)),
            ..progress
        },
        _ => progress,
    }
}

/// The whole resolution of the library file under `path`, begun at `now`.
pub open spec fn resolve_library(
    app_data: AppDataView,
    path: Seq<char>,
    now: Timestamp,
    first: FetchEvent,
    second: FetchEvent,
) -> Progress {
    advance(advance(begun(app_data, start_library(app_data, path, now), now), first), second)
}

/// The whole resolution of the content file under `path`, begun at `now`.
pub open spec fn resolve_content(
    app_data: AppDataView,
    path: Seq<char>,
    now: Timestamp,
    first: FetchEvent,
    second: FetchEvent,
) -> Progress {
    advance(advance(begun(app_data, start_content(app_data, path, now), now), first), second)
}

/// The resolution of the composed page under `path`, begun at `now`, up
/// to where it ends without composing or is ready to compose.
pub open spec fn resolve_parts(
    app_data: AppDataView,
    path: Seq<char>,
    now: Timestamp,
    first: FetchEvent,
    second: FetchEvent,
) -> Progress {
    advance(advance(begun(app_data, start_page(app_data, path, now), now), first), second)
}

/// The whole resolution of the composed page under `path`, begun at `now`,
/// where composing comes to `injected`.
pub open spec fn resolve_page(
    app_data: AppDataView,
    path: Seq<char>,
    now: Timestamp,
    first: FetchEvent,
    second: FetchEvent,
    injected: Option<Seq<char>>,
) -> Progress {
    conclude(resolve_parts(app_data, path, now, first, second), injected)
}

/// A run comes to composing with an outcome that composing may have.
pub open spec fn may_inject(
    app_data: AppDataView,
    path: Seq<char>,
    now: Timestamp,
    first: FetchEvent,
    second: FetchEvent,
    injected: Option<Seq<char>>,
) -> bool {
    match resolve_parts(app_data, path, now, first, second).step {
        StepView::Compose(composing) => may_compose(app_data.site_config, composing, injected),
        _ => true,
    }
}

/// A run that ended at once, as not found, with nothing fetched and nothing
/// changed.
pub open spec fn not_found_at_once(app_data: AppDataView, now: Timestamp) -> Progress {
    begun(app_data, StepView::Done(Err(FileError::FileNotFound())), now)
}

/// Every resolution ends, after two fetches at most; that of a single file
/// after one. The configuration is never changed.
pub proof fn law_resolutions_end(
    app_data: AppDataView,
    path: Seq<char>,
    now: Timestamp,
    first: FetchEvent,
    second: FetchEvent,
    injected: Option<Seq<char>>,
)
    ensures
        resolve_library(app_data, path, now, first, second).step is Done,
        resolve_library(app_data, path, now, first, second).fetches <= 1,
        resolve_content(app_data, path, now, first, second).step is Done,
        resolve_content(app_data, path, now, first, second).fetches <= 1,
        resolve_page(app_data, path, now, first, second, injected).step is Done,
        resolve_page(app_data, path, now, first, second, injected).fetches <= 2,
        resolve_library(app_data, path, now, first, second).app_data.site_config == app_data.site_config,
        resolve_content(app_data, path, now, first, second).app_data.site_config == app_data.site_config,
        resolve_page(app_data, path, now, first, second, injected).app_data.site_config == app_data.site_config,
{
}

/// An entry fetched at `fetched_at` is fresh at every time before
/// `fetched_at` plus the cache duration, and stale at that time and at
/// every time after it.
pub proof fn law_freshness_window(fetched_at: Timestamp, cache_seconds: u64, now: Timestamp)
    ensures
        now.as_nanos() < fetched_at.as_nanos() + cache_seconds * NANOS_PER_SECOND ==> is_fresh(
            fetched_at,
            now,
            cache_seconds,
        ),
        now.as_nanos() >= fetched_at.as_nanos() + cache_seconds * NANOS_PER_SECOND ==> !is_fresh(
            fetched_at,
            now,
            cache_seconds,
        ),
{
}

/// Freshness only ever ends: an entry fresh at one time was fresh at every
/// earlier time, and one stale at one time is stale at every later time.
pub proof fn law_freshness_is_monotonic(
    fetched_at: Timestamp,
    cache_seconds: u64,
    earlier: Timestamp,
    later: Timestamp,
)
    requires
        earlier.as_nanos() <= later.as_nanos(),
    ensures
        is_fresh(fetched_at, later, cache_seconds) ==> is_fresh(fetched_at, earlier, cache_seconds),
        !is_fresh(fetched_at, earlier, cache_seconds) ==> !is_fresh(fetched_at, later, cache_seconds),
{
}

/// A library file that the cache cannot serve is fetched exactly once, and
/// the text that comes is cached under its key and returned. A second
/// resolution within the file's cache duration of that fetch asks for no
/// fetch, changes nothing and returns the same page.
pub proof fn law_library_is_fetched_once_then_served(
    app_data: AppDataView,
    path: Seq<char>,
    now: Timestamp,
    text: Seq<char>,
    fetched_at: Timestamp,
    later: Timestamp,
    unused: FetchEvent,
)
    requires
        app_data.site_config.lib.contains_key(path),
        !(app_data.memory_pages.contains_key(path) && is_fresh(
            app_data.memory_pages[path].last_updated_at,
            now,
            lib_source(app_data.site_config, path)->0.cache_seconds,
        )),
        is_fresh(fetched_at, later, lib_source(app_data.site_config, path)->0.cache_seconds),
    ensures
        ({
            let first_run = resolve_library(
                app_data,
                path,
                now,
                FetchEvent { fetched: Ok(text), at: fetched_at },
                unused,
            );
            let second_run = resolve_library(first_run.app_data, path, later, unused, unused);
            &&& first_run.fetches == 1
            &&& first_run.step == StepView::Done(Ok(fetched_page(text, fetched_at)))
            &&& first_run.app_data == with_cached(app_data, path, fetched_page(text, fetched_at))
            &&& second_run.fetches == 0
            &&& second_run.step == first_run.step
            &&& second_run.app_data == first_run.app_data
        }),
{
}

/// The same of a content file resolved on its own.
pub proof fn law_content_is_fetched_once_then_served(
    app_data: AppDataView,
    path: Seq<char>,
    now: Timestamp,
    text: Seq<char>,
    fetched_at: Timestamp,
    later: Timestamp,
    unused: FetchEvent,
)
    requires
        app_data.site_config.content.contains_key(path),
        !(app_data.memory_pages.contains_key(path) && is_fresh(
            app_data.memory_pages[path].last_updated_at,
            now,
            content_source(app_data.site_config, path)->0.cache_seconds,
        )),
        is_fresh(fetched_at, later, content_source(app_data.site_config, path)->0.cache_seconds),
    ensures
        ({
            let first_run = resolve_content(
                app_data,
                path,
                now,
                FetchEvent { fetched: Ok(text), at: fetched_at },
                unused,
            );
            let second_run = resolve_content(first_run.app_data, path, later, unused, unused);
            &&& first_run.fetches == 1
            &&& first_run.step == StepView::Done(Ok(fetched_page(text, fetched_at)))
            &&& first_run.app_data == with_cached(app_data, path, fetched_page(text, fetched_at))
            &&& second_run.fetches == 0
            &&& second_run.step == first_run.step
            &&& second_run.app_data == first_run.app_data
        }),
{
}

/// A stale library entry is never served. At or after its time of fetch
/// plus the cache duration the file is fetched again, once, and the text
/// that comes replaces the entry and is returned. Where the caller's clock
/// does not go back, the new entry is dated no earlier than the lookup.
pub proof fn law_stale_library_entry_is_fetched_again(
    app_data: AppDataView,
    path: Seq<char>,
    now: Timestamp,
    text: Seq<char>,
    fetched_at: Timestamp,
    unused: FetchEvent,
)
    requires
        app_data.site_config.lib.contains_key(path),
        app_data.memory_pages.contains_key(path),
        now.as_nanos() >= app_data.memory_pages[path].last_updated_at.as_nanos() + lib_source(
            app_data.site_config,
            path,
        )->0.cache_seconds * NANOS_PER_SECOND,
        fetched_at.as_nanos() >= now.as_nanos(),
    ensures
        ({
            let run = resolve_library(
                app_data,
                path,
                now,
                FetchEvent { fetched: Ok(text), at: fetched_at },
                unused,
            );
            &&& start_library(app_data, path, now) == StepView::Fetch(
                fetch_request(
                    app_data.local_files_dir,
                    app_data.github_access_token,
                    app_data.site_config.lib[path].file_path,
                    app_data.site_config.lib[path].github_project,
                ),
                PendingView { path, stage: StageView::Library },
            )
            &&& run.fetches == 1
            &&& run.step == StepView::Done(Ok(fetched_page(text, fetched_at)))
            &&& run.app_data == with_cached(app_data, path, fetched_page(text, fetched_at))
            &&& run.app_data.memory_pages[path] == fetched_page(text, fetched_at)
            &&& run.app_data.memory_pages[path].last_updated_at.as_nanos() >= now.as_nanos()
        }),
{
}

/// The same of a content file resolved on its own.
pub proof fn law_stale_content_entry_is_fetched_again(
    app_data: AppDataView,
    path: Seq<char>,
    now: Timestamp,
    text: Seq<char>,
    fetched_at: Timestamp,
    unused: FetchEvent,
)
    requires
        app_data.site_config.content.contains_key(path),
        app_data.memory_pages.contains_key(path),
        now.as_nanos() >= app_data.memory_pages[path].last_updated_at.as_nanos() + content_source(
            app_data.site_config,
            path,
        )->0.cache_seconds * NANOS_PER_SECOND,
        fetched_at.as_nanos() >= now.as_nanos(),
    ensures
        ({
            let run = resolve_content(
                app_data,
                path,
                now,
                FetchEvent { fetched: Ok(text), at: fetched_at },
                unused,
            );
            &&& start_content(app_data, path, now) == StepView::Fetch(
                fetch_request(
                    app_data.local_files_dir,
                    app_data.github_access_token,
                    app_data.site_config.content[path].file_path,
                    app_data.site_config.content[path].github_project,
                ),
                PendingView { path, stage: StageView::Content },
            )
            &&& run.fetches == 1
            &&& run.step == StepView::Done(Ok(fetched_page(text, fetched_at)))
            &&& run.app_data == with_cached(app_data, path, fetched_page(text, fetched_at))
            &&& run.app_data.memory_pages[path] == fetched_page(text, fetched_at)
            &&& run.app_data.memory_pages[path].last_updated_at.as_nanos() >= now.as_nanos()
        }),
{
}

/// A page whose body is stale and whose template is fresh fetches its body
/// alone: one fetch, of the body's file; the text that comes replaces the
/// body's entry; the template's entry stays as it is and is not fetched;
/// and the page is composed from the new body and the cached template.
/// Stated for a page that does not share its key with its template.
pub proof fn law_stale_body_alone_is_fetched_again(
    app_data: AppDataView,
    path: Seq<char>,
    now: Timestamp,
    text: Seq<char>,
    fetched_at: Timestamp,
    unused: FetchEvent,
    injected: Option<Seq<char>>,
)
    requires
        template_key(app_data.site_config, path) is Some,
        template_key(app_data.site_config, path)->0 != path,
        app_data.memory_pages.contains_key(path),
        now.as_nanos() >= app_data.memory_pages[path].last_updated_at.as_nanos() + content_source(
            app_data.site_config,
            path,
        )->0.cache_seconds * NANOS_PER_SECOND,
        fetched_at.as_nanos() >= now.as_nanos(),
        app_data.memory_pages.contains_key(template_key(app_data.site_config, path)->0),
        is_fresh(
            app_data.memory_pages[template_key(app_data.site_config, path)->0].last_updated_at,
            fetched_at,
            lib_source(app_data.site_config, template_key(app_data.site_config, path)->0)->0.cache_seconds,
        ),
    ensures
        ({
            let key = template_key(app_data.site_config, path)->0;
            let fetched = FetchEvent { fetched: Ok(text), at: fetched_at };
            let run = resolve_page(app_data, path, now, fetched, unused, injected);
            &&& start_page(app_data, path, now) == StepView::Fetch(
                fetch_request(
                    app_data.local_files_dir,
                    app_data.github_access_token,
                    app_data.site_config.content[path].file_path,
                    app_data.site_config.content[path].github_project,
                ),
                PendingView { path, stage: StageView::PageContent },
            )
            &&& run.fetches == 1
            &&& run.app_data == with_cached(app_data, path, fetched_page(text, fetched_at))
            &&& run.app_data.memory_pages[path] == fetched_page(text, fetched_at)
            &&& run.app_data.memory_pages[path].last_updated_at.as_nanos() >= now.as_nanos()
            &&& run.app_data.memory_pages[key] == app_data.memory_pages[key]
            &&& run.step == StepView::Done(
                composed_page(app_data.memory_pages[key].last_updated_at, injected),
            )
            &&& resolve_parts(app_data, path, now, fetched, unused).step == StepView::Compose(
                ComposingView { path, body: text, template: app_data.memory_pages[key] },
            )
        }),
{
}

/// A fetch that fails ends the resolution as not found. It is not tried
/// again, and the cache stays as it was.
pub proof fn law_failed_fetch_is_not_found(
    app_data: AppDataView,
    path: Seq<char>,
    now: Timestamp,
    error: FetchError,
    failed_at: Timestamp,
    unused: FetchEvent,
    injected: Option<Seq<char>>,
)
    ensures
        ({
            let failed = FetchEvent { fetched: Err(error), at: failed_at };
            let library = resolve_library(app_data, path, now, failed, unused);
            let content = resolve_content(app_data, path, now, failed, unused);
            let page = resolve_page(app_data, path, now, failed, unused, injected);
            &&& library.fetches == 1 ==> library.step == StepView::Done(Err(FileError::FileNotFound()))
                && library.app_data == app_data
            &&& content.fetches == 1 ==> content.step == StepView::Done(Err(FileError::FileNotFound()))
                && content.app_data == app_data
            &&& page.fetches == 1 ==> page.step == StepView::Done(Err(FileError::FileNotFound()))
                && page.app_data == app_data
        }),
{
}

/// A key that the descriptor map in question does not hold is not found:
/// at once, without a fetch, whatever the cache holds. A page is not found
/// in the same way where it names no template or one that the library map
/// does not hold.
pub proof fn law_unknown_key_is_not_found(
    app_data: AppDataView,
    path: Seq<char>,
    now: Timestamp,
    first: FetchEvent,
    second: FetchEvent,
    injected: Option<Seq<char>>,
)
    ensures
        !app_data.site_config.lib.contains_key(path) ==> resolve_library(app_data, path, now, first, second)
            == not_found_at_once(app_data, now),
        !app_data.site_config.content.contains_key(path) ==> resolve_content(
            app_data,
            path,
            now,
            first,
            second,
        ) == not_found_at_once(app_data, now),
        !app_data.site_config.content.contains_key(path) ==> resolve_page(app_data, path, now, first, second, injected)
            == not_found_at_once(app_data, now),
        template_key(app_data.site_config, path) is None ==> resolve_page(app_data, path, now, first, second, injected)
            == not_found_at_once(app_data, now),
{
}

/// No fetched text brings a key into being: resuming for a key that the
/// configuration does not describe ends as not found and caches nothing.
pub proof fn law_unknown_key_is_never_cached(
    app_data: AppDataView,
    pending: PendingView,
    fetched: Result<Seq<char>, FetchError>,
    now: Timestamp,
)
    requires
        match pending.stage {
            StageView::Library => !app_data.site_config.lib.contains_key(pending.path),
            _ => !app_data.site_config.content.contains_key(pending.path),
        },
    ensures
        resume_step(app_data, pending, fetched, now) == (
            app_data,
            StepView::Done(Err(FileError::FileNotFound())),
        ),
{
}

/// The cache loses nothing and gains only what was fetched: after a step,
/// every entry that was there is still there, and an entry that is new or
/// changed is the text just fetched, dated at the step, under a key that
/// the configuration describes. Nothing else of the state changes.
pub proof fn law_cache_keeps_its_entries(
    app_data: AppDataView,
    pending: PendingView,
    fetched: Result<Seq<char>, FetchError>,
    now: Timestamp,
)
    ensures
        ({
            let after = resume_step(app_data, pending, fetched, now).0;
            &&& after.site_config == app_data.site_config
            &&& after.local_files_dir == app_data.local_files_dir
            &&& after.github_access_token == app_data.github_access_token
            &&& forall|key: Seq<char>| #[trigger]
                app_data.memory_pages.contains_key(key) ==> after.memory_pages.contains_key(key)
            &&& forall|key: Seq<char>| #[trigger]
                after.memory_pages.contains_key(key) ==> {
                    ||| app_data.memory_pages.contains_key(key) && after.memory_pages[key]
                        == app_data.memory_pages[key]
                    ||| {
                        &&& fetched matches Ok(text)
                        &&& after.memory_pages[key] == fetched_page(text, now)
                        &&& app_data.site_config.lib.contains_key(key)
                            || app_data.site_config.content.contains_key(key)
                    }
                }
        }),
{
}

/// The template's own resolution within a page's: it begins where the
/// body's ended, and its fetch is answered by the first answer that the
/// body's left unused.
pub open spec fn resolve_template_after(
    content: Progress,
    key: Seq<char>,
    first: FetchEvent,
    second: FetchEvent,
) -> Progress {
    let next = if content.fetches == 0 {
        first
    } else {
        second
    };
    resolve_library(content.app_data, key, content.at, next, next)
}

/// A page's resolution is its body's, then its template's, then
/// composing. Where both are resolved, the fetches and the cache are those
/// of the two resolutions, one after the other, and the page is what
/// composing comes to: the text, dated as the template is, or not found.
/// Where the body is resolved and the template is not, the page is not
/// found. Where the body is not resolved, the page is not found and the
/// template is not fetched.
pub proof fn law_page_needs_content_and_template(
    app_data: AppDataView,
    path: Seq<char>,
    now: Timestamp,
    first: FetchEvent,
    second: FetchEvent,
    injected: Option<Seq<char>>,
)
    requires
        template_key(app_data.site_config, path) is Some,
    ensures
        ({
            let key = template_key(app_data.site_config, path)->0;
            let page = resolve_page(app_data, path, now, first, second, injected);
            let content = resolve_content(app_data, path, now, first, second);
            let template = resolve_template_after(content, key, first, second);
            match content.step {
                StepView::Done(Ok(body)) => {
                    &&& page.app_data == template.app_data
                    &&& page.fetches == content.fetches + template.fetches
                    &&& match template.step {
                        StepView::Done(Ok(template_page)) => {
                            &&& resolve_parts(app_data, path, now, first, second).step == StepView::Compose(
                                ComposingView { path, body: body.content, template: template_page },
                            )
                            &&& page.step == StepView::Done(
                                composed_page(template_page.last_updated_at, injected),
                            )
                        },
                        _ => page.step == StepView::Done(Err(FileError::FileNotFound())),
                    }
                },
                _ => {
                    &&& page.step == StepView::Done(Err(FileError::FileNotFound()))
                    &&& page.app_data == content.app_data
                    &&& page.fetches == content.fetches
                },
            }
        }),
{
}

/// The same as a plain equivalence: a page is resolved if and only if its
/// body is, its template is, and composing gives a text.
pub proof fn law_page_is_resolved_iff_all_succeed(
    app_data: AppDataView,
    path: Seq<char>,
    now: Timestamp,
    first: FetchEvent,
    second: FetchEvent,
    injected: Option<Seq<char>>,
)
    ensures
        ({
            let key = template_key(app_data.site_config, path);
            let page = resolve_page(app_data, path, now, first, second, injected);
            let content = resolve_content(app_data, path, now, first, second);
            let template = resolve_template_after(content, key->0, first, second);
            (page.step matches StepView::Done(Ok(_))) <==> {
                &&& key is Some
                &&& content.step matches StepView::Done(Ok(_))
                &&& template.step matches StepView::Done(Ok(_))
                &&& injected is Some
            }
        }),
{
    if template_key(app_data.site_config, path) is Some {
        law_page_needs_content_and_template(app_data, path, now, first, second, injected);
    }
}

/// Where composing gives a text, a page is resolved if and only if both
/// its body and its template are.
pub proof fn law_page_is_resolved_iff_both_are(
    app_data: AppDataView,
    path: Seq<char>,
    now: Timestamp,
    first: FetchEvent,
    second: FetchEvent,
    injected: Option<Seq<char>>,
)
    requires
        injected is Some,
    ensures
        ({
            let key = template_key(app_data.site_config, path);
            let page = resolve_page(app_data, path, now, first, second, injected);
            let content = resolve_content(app_data, path, now, first, second);
            let template = resolve_template_after(content, key->0, first, second);
            (page.step matches StepView::Done(Ok(_))) <==> {
                &&& key is Some
                &&& content.step matches StepView::Done(Ok(_))
                &&& template.step matches StepView::Done(Ok(_))
            }
        }),
{
    law_page_is_resolved_iff_all_succeed(app_data, path, now, first, second, injected);
}

/// A page that is resolved holds the engine's text for its template and its
/// data, and its template is none that is refused.
pub proof fn law_resolved_page_is_the_engines_text(
    app_data: AppDataView,
    path: Seq<char>,
    now: Timestamp,
    first: FetchEvent,
    second: FetchEvent,
    injected: Option<Seq<char>>,
)
    requires
        may_inject(app_data, path, now, first, second, injected),
    ensures
        resolve_page(app_data, path, now, first, second, injected).step matches StepView::Done(Ok(page)) ==> {
            &&& resolve_parts(app_data, path, now, first, second).step matches StepView::Compose(composing)
            &&& composing.path == path
            &&& page.last_updated_at == composing.template.last_updated_at
            &&& !is_refused(composing.template.content)
            &&& rendered_for_page(app_data.site_config, path, composing.body, composing.template.content)
                == page.content
        },
{
    law_page_is_resolved_iff_all_succeed(app_data, path, now, first, second, injected);
    if template_key(app_data.site_config, path) is Some {
        law_page_needs_content_and_template(app_data, path, now, first, second, injected);
    }
}

/// What the engine makes of `template` against the data of the page under
/// `path` with the body `body`.
pub open spec fn rendered_for_page(
    config: ConfigView,
    path: Seq<char>,
    body: Seq<char>,
    template: Seq<char>,
) -> Seq<char> {
    rendered(
        template,
        context_json(
            template_content(body, config.content[path].pinned_posts, config.content[path].title, config),
        ),
    )
}

/// A template that is refused never gives a page: whatever is fetched, a
/// run that comes to composing with such a template ends as not found.
pub proof fn law_refused_template_is_not_found(
    app_data: AppDataView,
    path: Seq<char>,
    now: Timestamp,
    first: FetchEvent,
    second: FetchEvent,
    injected: Option<Seq<char>>,
)
    requires
        may_inject(app_data, path, now, first, second, injected),
        resolve_parts(app_data, path, now, first, second).step matches StepView::Compose(composing)
            && is_refused(composing.template.content),
    ensures
        resolve_page(app_data, path, now, first, second, injected).step == StepView::Done(
            Err(FileError::FileNotFound()),
        ),
{
}

/// A page whose body and template are both cached and fresh is composed
/// from the two entries at once: nothing is fetched and nothing changes.
/// Asked again, it is the same page wherever the engine gives the same
/// text.
pub proof fn law_cached_page_is_composed_without_fetch(
    app_data: AppDataView,
    path: Seq<char>,
    now: Timestamp,
    first: FetchEvent,
    second: FetchEvent,
    injected: Option<Seq<char>>,
)
    requires
        template_key(app_data.site_config, path) is Some,
        app_data.memory_pages.contains_key(path),
        is_fresh(
            app_data.memory_pages[path].last_updated_at,
            now,
            content_source(app_data.site_config, path)->0.cache_seconds,
        ),
        app_data.memory_pages.contains_key(template_key(app_data.site_config, path)->0),
        is_fresh(
            app_data.memory_pages[template_key(app_data.site_config, path)->0].last_updated_at,
            now,
            lib_source(app_data.site_config, template_key(app_data.site_config, path)->0)->0.cache_seconds,
        ),
    ensures
        resolve_page(app_data, path, now, first, second, injected) == begun(
            app_data,
            StepView::Done(
                composed_page(
                    app_data.memory_pages[template_key(app_data.site_config, path)->0].last_updated_at,
                    injected,
                ),
            ),
            now,
        ),
        resolve_parts(app_data, path, now, first, second) == begun(
            app_data,
            StepView::Compose(
                ComposingView {
                    path,
                    body: app_data.memory_pages[path].content,
                    template: app_data.memory_pages[template_key(app_data.site_config, path)->0],
                },
            ),
            now,
        ),
{
}

/// Nothing of what the content map holds is dropped twice: the held links
/// of the held links are the held links.
proof fn lemma_held_links_of_held_links(links: Seq<Seq<char>>, content: Map<Seq<char>, PageView>)
    ensures
        held_links(held_links(links, content), content) == held_links(links, content),
    decreases links.len(),
{
    if links.len() == 0 {
        assert(held_links(links, content) =~= links) by {
            reveal(Seq::filter);
        }
    } else {
        let earlier = links.drop_last();
        let link = links.last();
        assert(earlier.push(link) =~= links);
        lemma_held_links_of_held_links(earlier, content);
        lemma_held_links_push(earlier, link, content);
        if content.contains_key(link) {
            lemma_held_links_push(held_links(earlier, content), link, content);
        }
    }
}

/// Every held link is one of the links, and the content map holds it.
proof fn lemma_held_links_are_held(links: Seq<Seq<char>>, content: Map<Seq<char>, PageView>, i: int)
    requires
        0 <= i < held_links(links, content).len(),
    ensures
        content.contains_key(held_links(links, content)[i]),
        links.contains(held_links(links, content)[i]),
{
    let held = |link: Seq<char>| content.contains_key(link);
    links.lemma_filter_pred(held, i);
    assert(links.filter(held).contains(held_links(links, content)[i]));
    links.lemma_filter_contains_rev(held, held_links(links, content)[i]);
}

/// A pinned reference that the content map does not hold is passed over:
/// the summaries are those of the references that it holds, one for each
/// and in their order, each with the title, description and date of its
/// page and with its key as the link.
pub proof fn law_missing_pinned_posts_are_omitted(links: Seq<Seq<char>>, content: Map<Seq<char>, PageView>)
    ensures
        pinned_posts(links, content).len() == held_links(links, content).len(),
        pinned_posts(links, content) == pinned_posts(held_links(links, content), content),
        forall|i: int|
            0 <= i < pinned_posts(links, content).len() ==> {
                let link = held_links(links, content)[i];
                &&& links.contains(link)
                &&& content.contains_key(link)
                &&& #[trigger] pinned_posts(links, content)[i] == pinned_post(link, content[link])
            },
        forall|link: Seq<char>|
            !content.contains_key(link) ==> pinned_posts(#[trigger] links.push(link), content)
                == pinned_posts(links, content),
{
    lemma_held_links_of_held_links(links, content);
    assert forall|i: int| 0 <= i < pinned_posts(links, content).len() implies {
        let link = held_links(links, content)[i];
        &&& links.contains(link)
        &&& content.contains_key(link)
        &&& #[trigger] pinned_posts(links, content)[i] == pinned_post(link, content[link])
    } by {
        lemma_held_links_are_held(links, content, i);
    }
    assert forall|link: Seq<char>| !content.contains_key(link) implies pinned_posts(
        #[trigger] links.push(link),
        content,
    ) == pinned_posts(links, content) by {
        lemma_held_links_push(links, link, content);
    }
}

/// References that the content map does not hold change nothing of what
/// a page is composed from: the data handed to the engine, and so the text
/// that the engine makes, are the same with them as without them.
pub proof fn law_missing_pinned_posts_change_no_data(
    template: Seq<char>,
    body: Seq<char>,
    links: Seq<Seq<char>>,
    title: Seq<char>,
    config: ConfigView,
)
    ensures
        template_content(body, Some(links), title, config) == template_content(
            body,
            Some(held_links(links, config.content)),
            title,
            config,
        ),
        composed(template, body, Some(links), title, config) == composed(
            template,
            body,
            Some(held_links(links, config.content)),
            title,
            config,
        ),
{
    law_missing_pinned_posts_are_omitted(links, config.content);
}

} // verus!
