//! The site's configuration, as it is once loaded, and the cached pages.
//!
//! Every type has a view that replaces its strings by sequences of
//! characters; the contracts of the crate are stated over these views.

use crate::cache::PageCache;
use vstd::hash_map::StringHashMap;
use vstd::prelude::*;

verus! {

/// A point in time: whole seconds since the Unix epoch and the nanoseconds
/// that follow them.
#[derive(Clone, Copy, Debug, PartialEq, Eq, Structural)]
pub struct Timestamp {
    pub secs_since_epoch: u64,
    pub nanos_since_epoch: u32,
}

impl Timestamp {
    /// Nanoseconds between the Unix epoch and this point in time.
    pub open spec fn as_nanos(self) -> nat {
        (self.secs_since_epoch as nat) * 1_000_000_000 + (self.nanos_since_epoch as nat)
    }

    pub fn new(secs_since_epoch: u64, nanos_since_epoch: u32) -> (timestamp: Timestamp)
        ensures
            timestamp == (Timestamp { secs_since_epoch, nanos_since_epoch }),
    {
        Timestamp { secs_since_epoch, nanos_since_epoch }
    }
}

/// The characters of an optional string.
pub open spec fn text_of(text: Option<String>) -> Option<Seq<char>> {
    match text {
        Some(text) => Some(text@),
        None => None,
    }
}

/// The characters of each string of a list.
pub open spec fn texts_of(texts: Seq<String>) -> Seq<Seq<char>> {
    texts.map_values(|text: String| text@)
}

/// The characters of each string of an optional list.
pub open spec fn text_list_of(texts: Option<Vec<String>>) -> Option<Seq<Seq<char>>> {
    match texts {
        Some(texts) => Some(texts_of(texts@)),
        None => None,
    }
}

/// A copy of an optional string.
pub fn clone_text(text: &Option<String>) -> (copy: Option<String>)
    ensures
        text_of(copy) == text_of(*text),
{
    match text {
        Some(text) => Some(text.clone()),
        None => None,
    }
}

/// One entry of the content map: where a page's body lives, which template
/// frames it, and what a summary of it shows.
#[derive(Debug)]
pub struct Page {
    pub title: String,
    pub file_path: String,
    /// Key of the template in the library map; a page without one is never composed.
    pub tmpl_html: Option<String>,
    /// Remote project that holds the file; without one the file is local.
    pub github_project: Option<String>,
    pub description: Option<String>,
    pub date: Option<String>,
    /// Keys of other pages to summarise when this one is composed.
    pub pinned_posts: Option<Vec<String>>,
    pub recache_seconds: Option<u64>,
}

pub struct PageView {
    pub title: Seq<char>,
    pub file_path: Seq<char>,
    pub tmpl_html: Option<Seq<char>>,
    pub github_project: Option<Seq<char>>,
    pub description: Option<Seq<char>>,
    pub date: Option<Seq<char>>,
    pub pinned_posts: Option<Seq<Seq<char>>>,
    pub recache_seconds: Option<u64>,
}

impl View for Page {
    type V = PageView;

    open spec fn view(&self) -> PageView {
        PageView {
            title: self.title@,
            file_path: self.file_path@,
            tmpl_html: text_of(self.tmpl_html),
            github_project: text_of(self.github_project),
            description: text_of(self.description),
            date: text_of(self.date),
            pinned_posts: text_list_of(self.pinned_posts),
            recache_seconds: self.recache_seconds,
        }
    }
}

/// One entry of the library map: an asset or a template.
#[derive(Debug)]
pub struct LibFile {
    pub file_path: String,
    pub github_project: Option<String>,
    pub recache_seconds: Option<u64>,
}

pub struct LibFileView {
    pub file_path: Seq<char>,
    pub github_project: Option<Seq<char>>,
    pub recache_seconds: Option<u64>,
}

impl View for LibFile {
    type V = LibFileView;

    open spec fn view(&self) -> LibFileView {
        LibFileView {
            file_path: self.file_path@,
            github_project: text_of(self.github_project),
            recache_seconds: self.recache_seconds,
        }
    }
}

/// A navigation link of the site's header.
#[derive(Debug)]
pub struct HeaderLink {
    pub path: String,
    pub name: String,
}

pub struct HeaderLinkView {
    pub path: Seq<char>,
    pub name: Seq<char>,
}

impl View for HeaderLink {
    type V = HeaderLinkView;

    open spec fn view(&self) -> HeaderLinkView {
        HeaderLinkView { path: self.path@, name: self.name@ }
    }
}

impl Clone for HeaderLink {
    fn clone(&self) -> (copy: HeaderLink)
        ensures
            copy@ == self@,
    {
        HeaderLink { path: self.path.clone(), name: self.name.clone() }
    }
}

/// A link of the site's header to a profile elsewhere.
#[derive(Debug)]
pub struct HeaderSocial {
    pub name: String,
    pub url: String,
}

pub struct HeaderSocialView {
    pub name: Seq<char>,
    pub url: Seq<char>,
}

impl View for HeaderSocial {
    type V = HeaderSocialView;

    open spec fn view(&self) -> HeaderSocialView {
        HeaderSocialView { name: self.name@, url: self.url@ }
    }
}

impl Clone for HeaderSocial {
    fn clone(&self) -> (copy: HeaderSocial)
        ensures
            copy@ == self@,
    {
        HeaderSocial { name: self.name.clone(), url: self.url.clone() }
    }
}

/// The site-wide header: its links in order, then its social links in order.
#[derive(Debug)]
pub struct Header {
    pub links: Vec<HeaderLink>,
    pub socials: Option<Vec<HeaderSocial>>,
}

pub struct HeaderView {
    pub links: Seq<HeaderLinkView>,
    /// The social links; a header that names none has the empty list.
    pub socials: Seq<HeaderSocialView>,
}

impl View for Header {
    type V = HeaderView;

    open spec fn view(&self) -> HeaderView {
        HeaderView {
            links: self.links@.map_values(|link: HeaderLink| link@),
            socials: match self.socials {
                Some(socials) => socials@.map_values(|social: HeaderSocial| social@),
                None => Seq::empty(),
            },
        }
    }
}

/// Defaults that hold for the whole site.
#[derive(Debug)]
pub struct SiteConfig {
    pub default_recache_seconds: u64,
    pub title: String,
}

pub struct SiteConfigView {
    pub default_recache_seconds: u64,
    pub title: Seq<char>,
}

impl View for SiteConfig {
    type V = SiteConfigView;

    open spec fn view(&self) -> SiteConfigView {
        SiteConfigView { default_recache_seconds: self.default_recache_seconds, title: self.title@ }
    }
}

/// The whole configuration. It is built once and only read afterwards.
pub struct Config {
    pub lib: StringHashMap<LibFile>,
    pub content: StringHashMap<Page>,
    pub header: Header,
    pub site_config: SiteConfig,
}

pub struct ConfigView {
    pub lib: Map<Seq<char>, LibFileView>,
    pub content: Map<Seq<char>, PageView>,
    pub header: HeaderView,
    pub site_config: SiteConfigView,
}

impl View for Config {
    type V = ConfigView;

    open spec fn view(&self) -> ConfigView {
        ConfigView {
            lib: self.lib@.map_values(|file: LibFile| file@),
            content: self.content@.map_values(|page: Page| page@),
            header: self.header@,
            site_config: self.site_config@,
        }
    }
}

impl Config {
    /// A configuration with the given header and defaults and with no entry
    /// in either map.
    pub fn new(header: Header, site_config: SiteConfig) -> (config: Config)
        ensures
            config@ == (ConfigView {
                lib: Map::empty(),
                content: Map::empty(),
                header: header@,
                site_config: site_config@,
            }),
    {
        let config = Config {
            lib: StringHashMap::new(),
            content: StringHashMap::new(),
            header,
            site_config,
        };
        assert(config@.lib =~= Map::empty());
        assert(config@.content =~= Map::empty());
        config
    }

    /// Puts `file` into the library map under `key`, in place of what was there.
    pub fn insert_lib(&mut self, key: String, file: LibFile)
        ensures
            final(self)@ == (ConfigView { lib: old(self)@.lib.insert(key@, file@), ..old(self)@ }),
    {
        self.lib.insert(key, file);
        assert(self@.lib =~= old(self)@.lib.insert(key@, file@));
    }

    /// Puts `page` into the content map under `key`, in place of what was there.
    pub fn insert_content(&mut self, key: String, page: Page)
        ensures
            final(self)@ == (ConfigView {
                content: old(self)@.content.insert(key@, page@),
                ..old(self)@
            }),
    {
        self.content.insert(key, page);
        assert(self@.content =~= old(self)@.content.insert(key@, page@));
    }
}

/// A cached text with the time at which it was fetched.
#[derive(Debug)]
pub struct MemoryPage {
    pub content: String,
    pub last_updated_at: Timestamp,
}

pub struct MemoryPageView {
    pub content: Seq<char>,
    pub last_updated_at: Timestamp,
}

impl View for MemoryPage {
    type V = MemoryPageView;

    open spec fn view(&self) -> MemoryPageView {
        MemoryPageView { content: self.content@, last_updated_at: self.last_updated_at }
    }
}

impl Clone for MemoryPage {
    fn clone(&self) -> (copy: MemoryPage)
        ensures
            copy@ == self@,
    {
        MemoryPage { content: self.content.clone(), last_updated_at: self.last_updated_at }
    }
}

/// What every resolution works on: the configuration, where local files
/// and remote requests start from, and the page cache.
pub struct AppData {
    pub site_config: Config,
    /// Prefix of every local file path.
    pub local_files_dir: String,
    /// The credential presented to the remote repository: the bare token,
    /// without a scheme. Each remote request sends it behind `Bearer `.
    pub github_access_token: String,
    pub memory_pages: PageCache,
}

pub struct AppDataView {
    pub site_config: ConfigView,
    pub local_files_dir: Seq<char>,
    pub github_access_token: Seq<char>,
    pub memory_pages: Map<Seq<char>, MemoryPageView>,
}

impl View for AppData {
    type V = AppDataView;

    open spec fn view(&self) -> AppDataView {
        AppDataView {
            site_config: self.site_config@,
            local_files_dir: self.local_files_dir@,
            github_access_token: self.github_access_token@,
            memory_pages: self.memory_pages@,
        }
    }
}

impl AppData {
    /// The state at startup: the loaded configuration and an empty cache.
    pub fn new(site_config: Config, local_files_dir: String, github_access_token: String) -> (app_data: AppData)
        ensures
            app_data@ == (AppDataView {
                site_config: site_config@,
                local_files_dir: local_files_dir@,
                github_access_token: github_access_token@,
                memory_pages: Map::empty(),
            }),
    {
        AppData { site_config, local_files_dir, github_access_token, memory_pages: PageCache::new() }
    }
}

} // verus!
