//! The registry: every profile under its key.
//!
//! The registry owns all cache state. Readers get copies; the cache of a
//! profile changes through [`ProfileRegistry::update_cache`] alone, and the
//! configuration through [`ProfileRegistry::replace_all`] alone.

use vstd::prelude::*;
use vstd::hash_map::StringHashMap;
use crate::item::{clone_items, FeedItem, FeedItemView};
use crate::profile::{Profile, ProfileView};
use crate::sources::clone_sources;

verus! {

/// The mathematical value of a registry: the profile under each key.
pub type RegistryView = Map<Seq<char>, ProfileView>;

/// The mapping from profile key to profile.
pub struct ProfileRegistry {
    profiles: StringHashMap<Profile>,
}

/// The registry that a list of configured profiles makes: each profile
/// under its key and never refreshed, a later entry taking the place of an
/// earlier one with the same key.
pub open spec fn loaded(entries: Seq<(Seq<char>, ProfileView)>) -> RegistryView
    decreases entries.len(),
{
    if entries.len() == 0 {
        Map::empty()
    } else {
        let (key, profile) = entries.last();
        loaded(entries.drop_last()).insert(
            key,
            ProfileView::fresh(profile.sources, profile.cache_life),
        )
    }
}

/// The registry after the cache of `key` was overwritten by `items`,
/// fetched at `now`. A key that the registry does not hold changes nothing.
pub open spec fn stored(
    registry: RegistryView,
    key: Seq<char>,
    items: Seq<FeedItemView>,
    now: u64,
) -> RegistryView {
    if registry.contains_key(key) {
        registry.insert(key, registry[key].refreshed(items, now))
    } else {
        registry
    }
}

/// The profile under `key`, if there is one.
pub open spec fn lookup(registry: RegistryView, key: Seq<char>) -> Option<ProfileView> {
    if registry.contains_key(key) {
        Some(registry[key])
    } else {
        None
    }
}

impl View for ProfileRegistry {
    type V = RegistryView;

    closed spec fn view(&self) -> RegistryView {
        self.profiles@.map_values(|profile: Profile| profile@)
    }
}

/// Every profile of the registry holds items only together with the time
/// they were fetched at.
pub open spec fn cache_states_wf(registry: RegistryView) -> bool {
    forall|key: Seq<char>| registry.contains_key(key) ==> (#[trigger] registry[key]).wf()
}

impl ProfileRegistry {
    /// A registry without profiles.
    pub fn new() -> (registry: Self)
        ensures
            registry@ == Map::<Seq<char>, ProfileView>::empty(),
            cache_states_wf(registry@),
    {
        let registry = ProfileRegistry { profiles: StringHashMap::new() };
        assert(registry@ =~= Map::<Seq<char>, ProfileView>::empty());
        registry
    }

    /// Puts a profile under `key`, in place of the one that was there. The
    /// profile starts never refreshed, whatever cache the given value holds.
    pub fn insert(&mut self, key: String, profile: Profile)
        ensures
            final(self)@ == old(self)@.insert(
                key@,
                ProfileView::fresh(profile@.sources, profile@.cache_life),
            ),
            cache_states_wf(old(self)@) ==> cache_states_wf(final(self)@),
    {
        let ghost entered = ProfileView::fresh(profile@.sources, profile@.cache_life);
        let fresh = Profile::new(profile.sources, profile.cache_life);
        self.profiles.insert(key, fresh);
        assert(self@ =~= old(self)@.insert(key@, entered));
    }

    /// Builds the registry of a list of configured profiles.
    pub fn load(entries: Vec<(String, Profile)>) -> (registry: Self)
        ensures
            registry@ == loaded(entries.deep_view()),
            cache_states_wf(registry@),
    {
        let ghost all = entries.deep_view();
        let ghost given = entries@;
        let mut registry = ProfileRegistry::new();
        for entry in iter: entries
            invariant
                iter.seq() == given,
                all.len() == given.len(),
                forall|i: int| 0 <= i < given.len() ==> all[i] == (#[trigger] given[i]).deep_view(),
                registry@ == loaded(all.take(iter.index() as int)),
                cache_states_wf(registry@),
        {
            let ghost done = iter.index() as int;
            proof {
                assert(all.take(done + 1).drop_last() =~= all.take(done));
                assert(all.take(done + 1).last() == entry.deep_view());
            }
            let (key, profile) = entry;
            registry.insert(key, profile);
        }
        assert(all.take(all.len() as int) =~= all);
        registry
    }

    /// The number of profiles.
    pub fn len(&self) -> (count: usize)
        ensures
            count == self@.len(),
    {
        broadcast use vstd::hash_map::group_hash_map_axioms;

        let count = self.profiles.len();
        proof {
            assert(self@.dom() =~= self.profiles@.dom());
        }
        count
    }

    /// Whether there is a profile under `key`.
    pub fn contains(&self, key: &str) -> (present: bool)
        ensures
            present == self@.contains_key(key@),
    {
        self.profiles.contains_key(key)
    }

    /// A copy of the profile under `key` as it is now: sources, cache life
    /// and cache state. Later changes to the registry do not reach it.
    pub fn get(&self, key: &str) -> (snapshot: Option<Profile>)
        ensures
            snapshot.deep_view() == lookup(self@, key@),
    {
        match self.profiles.get(key) {
            Some(profile) => Some(profile.clone()),
            None => None,
        }
    }

    /// A copy of the cached items of the profile under `key`.
    pub fn get_cache(&self, key: &str) -> (cache: Option<Vec<FeedItem>>)
        ensures
            cache.deep_view() == (match lookup(self@, key@) {
                Some(profile) => Some(profile.cache),
                None => None,
            }),
    {
        match self.profiles.get(key) {
            Some(profile) => Some(clone_items(&profile.cache)),
            None => None,
        }
    }

    /// Swaps the whole mapping for another. Nothing of the old one stays.
    pub fn replace_all(&mut self, new: ProfileRegistry)
        ensures
            final(self)@ == new@,
    {
        *self = new;
    }

    /// Overwrites the cache of the profile under `key` with `items`,
    /// fetched at `now`, whatever the cache held. Where the key is gone the
    /// update is dropped.
    pub fn update_cache(&mut self, key: &str, items: Vec<FeedItem>, now: u64)
        ensures
            final(self)@ == stored(old(self)@, key@, items.deep_view(), now),
            cache_states_wf(old(self)@) ==> cache_states_wf(final(self)@),
    {
        let configured = match self.profiles.get(key) {
            Some(profile) => Some((clone_sources(&profile.sources), profile.cache_life)),
            None => None,
        };
        match configured {
            Some((sources, cache_life)) => {
                let mut profile = Profile::new(sources, cache_life);
                profile.store(items, now);
                self.profiles.insert(key.to_owned(), profile);
                assert(self@ =~= stored(old(self)@, key@, items.deep_view(), now));
            },
            None => {},
        }
    }
}

} // verus!
