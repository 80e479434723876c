//! A profile: an ordered list of sources, the time its merged items stay
//! fresh, and the items of its last refresh.
//!
//! Instants are readings of a monotonic clock in whole seconds; the cache
//! life is a number of seconds.

use vstd::prelude::*;
use crate::common::{FeedGenerator, Fetch, FetchView};
use crate::item::{clone_items, FeedItem, FeedItemView};
use crate::sources::{clone_sources, Source, SourceView};

verus! {

/// The cache state of a profile that was never refreshed.
pub fn antique() -> (never: Option<u64>)
    ensures
        never is None,
{
    None
}

/// The cache life of a profile whose configuration names none: 600 seconds.
pub fn default_cache_life() -> (seconds: u64)
    ensures
        seconds == 600,
{
    600
}

/// A named feed: where its items come from and what was last fetched.
#[derive(Debug, PartialEq, Eq)]
pub struct Profile {
    /// The sources, in the order in which their items are merged.
    pub sources: Vec<Source>,
    /// When the cache was last filled; `None` before the first refresh.
    pub cache_ts: Option<u64>,
    /// The merged items of the last refresh.
    pub cache: Vec<FeedItem>,
    /// For how many seconds a refresh stays fresh.
    pub cache_life: u64,
}

/// The mathematical value of a [`Profile`].
pub ghost struct ProfileView {
    pub sources: Seq<SourceView>,
    pub cache_ts: Option<u64>,
    pub cache: Seq<FeedItemView>,
    pub cache_life: u64,
}

impl ProfileView {
    /// A profile with the given configuration that was never refreshed.
    pub open spec fn fresh(sources: Seq<SourceView>, cache_life: u64) -> ProfileView {
        ProfileView { sources, cache_ts: None, cache: Seq::empty(), cache_life }
    }

    /// Timestamp and items belong together: without a timestamp there are
    /// no items.
    pub open spec fn wf(self) -> bool {
        self.cache_ts is None ==> self.cache.len() == 0
    }

    /// Whether the cache is stale at `now`: it was never filled, or more
    /// than the cache life has passed since it was.
    pub open spec fn is_stale(self, now: u64) -> bool {
        match self.cache_ts {
            None => true,
            Some(filled) => now - filled > self.cache_life,
        }
    }

    /// The fan-out of a refresh: one invocation for each source, in the
    /// order of the sources.
    pub open spec fn plan(self) -> Seq<FetchView> {
        Seq::new(self.sources.len(), |i: int| self.sources[i].fetch())
    }

    /// The profile after a refresh at `now` that brought `items`.
    pub open spec fn refreshed(self, items: Seq<FeedItemView>, now: u64) -> ProfileView {
        ProfileView { cache_ts: Some(now), cache: items, ..self }
    }
}

impl View for Profile {
    type V = ProfileView;

    open spec fn view(&self) -> ProfileView {
        ProfileView {
            sources: self.sources.deep_view(),
            cache_ts: self.cache_ts,
            cache: self.cache.deep_view(),
            cache_life: self.cache_life,
        }
    }
}

impl DeepView for Profile {
    type V = ProfileView;

    open spec fn deep_view(&self) -> ProfileView {
        self@
    }
}

impl Clone for Profile {
    fn clone(&self) -> (copy: Self)
        ensures
            copy@ == self@,
    {
        Profile {
            sources: clone_sources(&self.sources),
            cache_ts: self.cache_ts,
            cache: clone_items(&self.cache),
            cache_life: self.cache_life,
        }
    }
}

impl Profile {
    /// A profile that was never refreshed.
    pub fn new(sources: Vec<Source>, cache_life: u64) -> (profile: Self)
        ensures
            profile@ == ProfileView::fresh(sources.deep_view(), cache_life),
    {
        let profile = Profile { sources, cache_ts: antique(), cache: Vec::new(), cache_life };
        assert(profile.cache.deep_view() =~= Seq::empty());
        profile
    }

    /// Whether a request at `now` has to refresh the cache.
    pub fn cache_need_refresh(&self, now: u64) -> (stale: bool)
        ensures
            stale == self@.is_stale(now),
    {
        match self.cache_ts {
            None => true,
            Some(filled) => now > filled && now - filled > self.cache_life,
        }
    }

    /// Invokes every source once, in order.
    pub fn fan_out(&self) -> (fetches: Vec<Fetch>)
        ensures
            fetches.deep_view() == self@.plan(),
    {
        let mut fetches: Vec<Fetch> = Vec::new();
        let mut next: usize = 0;
        while next < self.sources.len()
            invariant
                next <= self.sources.len(),
                fetches@.len() == next,
                forall|i: int| 0 <= i < next ==> (#[trigger] fetches@[i])@ == self.sources@[i]@.fetch(),
            decreases self.sources.len() - next,
        {
            fetches.push(self.sources[next].get_items());
            next = next + 1;
        }
        assert(fetches.deep_view() =~= self@.plan());
        fetches
    }

    /// Replaces the cache by the items of a refresh at `now`.
    pub fn store(&mut self, items: Vec<FeedItem>, now: u64)
        ensures
            final(self)@ == old(self)@.refreshed(items.deep_view(), now),
    {
        self.cache = items;
        self.cache_ts = Some(now);
    }
}

} // verus!
