//! The refresh coordinator: whether a request is served from the cache,
//! what a refresh has to fetch, and what becomes of the fetched items.
//!
//! A refresh runs in two steps around the caller's network work.
//! [`resolve`] reads the registry once and either answers from the cache or
//! hands out the fan-out: one [`Fetch`] for each source of the profile. The
//! caller carries the fetches out, none of them while it holds the
//! registry, and hands the outcomes to [`complete`] in the same order.

use vstd::prelude::*;
use crate::common::{
    outcome_view, outcome_views, Fetch, FetchView, Outcome, OutcomeView, RssError, RssErrorView,
    ServiceError, ServiceErrorView,
};
use crate::collect::{all_ok, collected, lemma_first_err, lemma_values_push, values};
use crate::item::{clone_items, FeedItem, FeedItemView};
use crate::registry::{stored, ProfileRegistry, RegistryView};

verus! {

/// What a request comes to before any source is invoked.
#[derive(Debug, PartialEq, Eq)]
pub enum Resolution {
    /// There is no profile under the key.
    NotFound,
    /// The cache is fresh: these are its items, and no source is invoked.
    Hit(Vec<FeedItem>),
    /// The cache is stale: these fetches are to be carried out, one for
    /// each source and in the order of the sources.
    Refresh(Vec<Fetch>),
}

/// The mathematical value of a [`Resolution`].
pub ghost enum ResolutionView {
    NotFound,
    Hit(Seq<FeedItemView>),
    Refresh(Seq<FetchView>),
}

impl View for Resolution {
    type V = ResolutionView;

    open spec fn view(&self) -> ResolutionView {
        match self {
            Resolution::NotFound => ResolutionView::NotFound,
            Resolution::Hit(items) => ResolutionView::Hit(items.deep_view()),
            Resolution::Refresh(fetches) => ResolutionView::Refresh(fetches.deep_view()),
        }
    }
}

impl DeepView for Resolution {
    type V = ResolutionView;

    open spec fn deep_view(&self) -> ResolutionView {
        self@
    }
}

/// What a request for `key` at `now` comes to: not found without a
/// profile, the cached items while the cache is fresh, and else the
/// fan-out over the sources of the profile.
pub open spec fn resolved(registry: RegistryView, key: Seq<char>, now: u64) -> ResolutionView {
    if !registry.contains_key(key) {
        ResolutionView::NotFound
    } else if registry[key].is_stale(now) {
        ResolutionView::Refresh(registry[key].plan())
    } else {
        ResolutionView::Hit(registry[key].cache)
    }
}

/// Decides how a request for `key` at `now` is served.
///
/// The registry is read once, so the answer belongs to one state of it.
pub fn resolve(registry: &ProfileRegistry, key: &str, now: u64) -> (resolution: Resolution)
    ensures
        resolution@ == resolved(registry@, key@, now),
{
    match registry.get(key) {
        None => Resolution::NotFound,
        Some(profile) => {
            if profile.cache_need_refresh(now) {
                Resolution::Refresh(profile.fan_out())
            } else {
                Resolution::Hit(profile.cache)
            }
        },
    }
}

/// The fan-in of a list of outcomes: the item lists of all sources in the
/// order of the sources where every source succeeded, and the error of the
/// first source that failed where one did.
pub open spec fn joined(outcomes: Seq<OutcomeView>) -> Result<Seq<Seq<FeedItemView>>, RssErrorView> {
    collected(outcomes)
}

/// The fan-in: takes the outcomes of a fan-out and yields the item lists of
/// all sources, or the first failure. One failure fails the whole.
pub fn join_all(outcomes: Vec<Outcome>) -> (result: Result<Vec<Vec<FeedItem>>, RssError>)
    ensures
        match joined(outcome_views(outcomes@)) {
            Ok(parts) => result matches Ok(lists) && lists.deep_view() == parts,
            Err(error) => result matches Err(failure) && failure@ == error,
        },
{
    let ghost given = outcomes@;
    let ghost all = outcome_views(given);
    let mut lists: Vec<Vec<FeedItem>> = Vec::new();
    assert(lists.deep_view() =~= values(all.take(0)));
    for outcome in iter: outcomes
        invariant
            iter.seq() == given,
            all == outcome_views(given),
            all_ok(all.take(iter.index() as int)),
            lists.deep_view() == values(all.take(iter.index() as int)),
    {
        let ghost done = iter.index() as int;
        let ghost before = lists.deep_view();
        assert(all[done] == outcome_view(outcome));
        match outcome {
            Ok(items) => {
                lists.push(items);
                proof {
                    lemma_values_push(all.take(done), items.deep_view());
                    assert(all.take(done + 1) =~= all.take(done).push(Ok(items.deep_view())));
                    assert(lists.deep_view() =~= before.push(items.deep_view()));
                }
            },
            Err(error) => {
                proof {
                    assert forall|i: int| 0 <= i < done implies (#[trigger] all[i]) is Ok by {
                        assert(all.take(done)[i] is Ok);
                    }
                    lemma_first_err(all, done);
                }
                return Err(error);
            },
        }
    }
    assert(all.take(all.len() as int) =~= all);
    Ok(lists)
}

/// Concatenates the item lists of the sources: the lists in their order,
/// and within a list the items in theirs.
pub fn vecvec_into_vec(vecvec: Vec<Vec<FeedItem>>) -> (merged: Vec<FeedItem>)
    ensures
        merged.deep_view() == vecvec.deep_view().flatten(),
{
    let ghost parts = vecvec.deep_view();
    let ghost given = vecvec@;
    let mut merged: Vec<FeedItem> = Vec::new();
    assert(parts.take(0).flatten() =~= merged.deep_view());
    for list in iter: vecvec
        invariant
            iter.seq() == given,
            parts.len() == given.len(),
            forall|i: int| 0 <= i < given.len() ==> parts[i] == (#[trigger] given[i]).deep_view(),
            merged.deep_view() == parts.take(iter.index() as int).flatten(),
    {
        let ghost done = iter.index() as int;
        let ghost before = merged.deep_view();
        let mut list = list;
        let ghost added = list.deep_view();
        merged.append(&mut list);
        proof {
            assert(merged.deep_view() =~= before + added);
            assert(parts.take(done + 1) =~= parts.take(done).push(added));
            parts.take(done).lemma_flatten_push(added);
        }
    }
    assert(parts.take(parts.len() as int) =~= parts);
    merged
}

/// The registry after the outcomes of a refresh of `key` came in at `now`:
/// the merged items are stored where all sources succeeded, and nothing
/// changes where one failed.
pub open spec fn completed_registry(
    registry: RegistryView,
    key: Seq<char>,
    outcomes: Seq<OutcomeView>,
    now: u64,
) -> RegistryView {
    match joined(outcomes) {
        Ok(parts) => stored(registry, key, parts.flatten(), now),
        Err(_) => registry,
    }
}

/// What the request that started the refresh is answered with: the merged
/// items, or the failure of the first source that failed.
pub open spec fn completed_answer(outcomes: Seq<OutcomeView>) -> Result<
    Seq<FeedItemView>,
    ServiceErrorView,
> {
    match joined(outcomes) {
        Ok(parts) => Ok(parts.flatten()),
        Err(error) => Err(ServiceErrorView::Fetch(error)),
    }
}

/// The mathematical value of the answer to a request.
pub open spec fn answer_view(answer: Result<Vec<FeedItem>, ServiceError>) -> Result<
    Seq<FeedItemView>,
    ServiceErrorView,
> {
    match answer {
        Ok(items) => Ok(items.deep_view()),
        Err(error) => Err(error@),
    }
}

/// Ends a refresh of `key` with the outcomes of its fan-out, one for each
/// source and in the order of the sources.
///
/// Where every source succeeded, the merged items go into the cache with
/// `now` as their time, whatever the cache held, and are the answer. Where
/// the key is gone from the registry, the write is dropped and the items
/// are still the answer. Where a source failed, the cache stays as it was
/// and the failure is the answer.
pub fn complete(registry: &mut ProfileRegistry, key: &str, outcomes: Vec<Outcome>, now: u64) -> (answer:
    Result<Vec<FeedItem>, ServiceError>)
    ensures
        answer_view(answer) == completed_answer(outcome_views(outcomes@)),
        final(registry)@ == completed_registry(old(registry)@, key@, outcome_views(outcomes@), now),
{
    match join_all(outcomes) {
        Err(error) => Err(ServiceError::Fetch(error)),
        Ok(lists) => {
            let merged = vecvec_into_vec(lists);
            registry.update_cache(key, clone_items(&merged), now);
            Ok(merged)
        },
    }
}

} // verus!
