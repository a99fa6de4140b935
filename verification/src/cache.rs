//! The page cache: fetched texts by key, each with the time of its fetch.
//!
//! Nothing is ever evicted. An entry stays until a later fetch of the same
//! key replaces it; whether it may still be served is decided by
//! [`is_fresh`] at the time of asking.

use crate::models::{MemoryPage, MemoryPageView, Timestamp};
use vstd::hash_map::StringHashMap;
use vstd::prelude::*;

verus! {

pub const NANOS_PER_SECOND: u128 = 1_000_000_000;

/// An entry fetched at `last_updated_at` may be served at `now` under a
/// cache duration of `cache_seconds` exactly while less than that duration
/// has passed since the fetch.
pub open spec fn is_fresh(last_updated_at: Timestamp, now: Timestamp, cache_seconds: u64) -> bool {
    now.as_nanos() - last_updated_at.as_nanos() < cache_seconds * NANOS_PER_SECOND
}

impl Timestamp {
    fn nanos(&self) -> (nanos: u128)
        ensures
            nanos == self.as_nanos(),
            nanos <= u64::MAX * NANOS_PER_SECOND + u32::MAX,
    {
        let secs: u128 = self.secs_since_epoch as u128;
        let rest: u128 = self.nanos_since_epoch as u128;
        assert(secs * NANOS_PER_SECOND <= u64::MAX * NANOS_PER_SECOND) by (nonlinear_arith)
            requires
                secs <= u64::MAX,
        ;
        secs * NANOS_PER_SECOND + rest
    }
}

impl MemoryPage {
    /// Whether this entry may still be served at `now`.
    pub fn is_fresh(&self, now: Timestamp, cache_seconds: u64) -> (fresh: bool)
        ensures
            fresh == is_fresh(self.last_updated_at, now, cache_seconds),
    {
        let window: u128 = cache_seconds as u128;
        assert(window * NANOS_PER_SECOND <= u64::MAX * NANOS_PER_SECOND) by (nonlinear_arith)
            requires
                window <= u64::MAX,
        ;
        now.nanos() < self.last_updated_at.nanos() + window * NANOS_PER_SECOND
    }
}

/// The cache itself. Its view maps each key to the view of its entry.
pub struct PageCache {
    entries: StringHashMap<MemoryPage>,
}

impl View for PageCache {
    type V = Map<Seq<char>, MemoryPageView>;

    closed spec fn view(&self) -> Map<Seq<char>, MemoryPageView> {
        self.entries@.map_values(|page: MemoryPage| page@)
    }
}

impl PageCache {
    pub fn new() -> (cache: PageCache)
        ensures
            cache@ == Map::<Seq<char>, MemoryPageView>::empty(),
    {
        let cache = PageCache { entries: StringHashMap::new() };
        assert(cache@ =~= Map::empty());
        cache
    }

    /// A copy of the entry under `key`, if there is one.
    pub fn get(&self, key: &str) -> (found: Option<MemoryPage>)
        ensures
            match found {
                Some(page) => self@.contains_key(key@) && page@ == self@[key@],
                None => !self@.contains_key(key@),
            },
    {
        match self.entries.get(key) {
            Some(page) => Some(page.clone()),
            None => None,
        }
    }

    /// Stores `content` under `key` as fetched at `now`, in place of any
    /// entry that was there, and returns a copy of the new entry.
    pub fn put(&mut self, key: String, content: String, now: Timestamp) -> (page: MemoryPage)
        ensures
            page@ == (MemoryPageView { content: content@, last_updated_at: now }),
            final(self)@ == old(self)@.insert(key@, page@),
    {
        let page = MemoryPage { content, last_updated_at: now };
        let copy = page.clone();
        self.entries.insert(key, page);
        assert(self@ =~= old(self)@.insert(key@, copy@));
        copy
    }
}

} // verus!
