//! What holds of the cache over whole sequences of requests, stated over
//! the functions that the contracts of the crate speak of.

use vstd::prelude::*;
use crate::collect::{all_ok, first_err, lemma_some_err, values};
use crate::common::{FetchView, OutcomeView, ServiceErrorView};
use crate::item::FeedItemView;
use crate::profile::ProfileView;
use crate::refresh::{completed_answer, completed_registry, resolved, ResolutionView};
use crate::registry::{cache_states_wf, loaded, stored, RegistryView};
use crate::sources::dummy::{placeholder, placeholders};
use crate::sources::SourceView;
use crate::service::{
    key_of, response_to, served, ResponseView, StepView, STATUS_NOT_FOUND, STATUS_OK,
    STATUS_SERVER_ERROR,
};
use crate::trusted::feed_document;

verus! {

/// A refresh in which every source succeeded answers with the items of
/// the sources, concatenated in the order of the sources, and leaves the
/// profile with these items and the time of the refresh. No other profile
/// changes.
pub proof fn law_refresh_fills_cache(
    registry: RegistryView,
    key: Seq<char>,
    outcomes: Seq<OutcomeView>,
    now: u64,
)
    requires
        registry.contains_key(key),
        all_ok(outcomes),
    ensures
        completed_answer(outcomes) == Ok::<Seq<FeedItemView>, ServiceErrorView>(
            values(outcomes).flatten(),
        ),
        completed_registry(registry, key, outcomes, now) == registry.insert(
            key,
            registry[key].refreshed(values(outcomes).flatten(), now),
        ),
{
}

/// Cache hit: a request that comes less than the cache life after the last
/// refresh is answered with the items of that refresh, and no source is
/// invoked.
pub proof fn law_cache_hit(registry: RegistryView, key: Seq<char>, refreshed_at: u64, now: u64)
    requires
        registry.contains_key(key),
        registry[key].cache_ts == Some(refreshed_at),
        refreshed_at <= now,
        now - refreshed_at < registry[key].cache_life,
    ensures
        resolved(registry, key, now) == ResolutionView::Hit(registry[key].cache),
{
}

/// Cache hit, from one request to the next: after a refresh of `key` at
/// `refreshed_at` in which every source succeeded, a request that comes
/// less than the cache life later is answered with the items of that
/// refresh.
pub proof fn law_cache_hit_after_refresh(
    registry: RegistryView,
    key: Seq<char>,
    outcomes: Seq<OutcomeView>,
    refreshed_at: u64,
    now: u64,
)
    requires
        registry.contains_key(key),
        all_ok(outcomes),
        refreshed_at <= now,
        now - refreshed_at < registry[key].cache_life,
    ensures
        resolved(completed_registry(registry, key, outcomes, refreshed_at), key, now)
            == ResolutionView::Hit(values(outcomes).flatten()),
{
}

/// The boundary between hit and expiry: a request that comes exactly the
/// cache life after the last refresh is still answered from the cache.
pub proof fn law_cache_fresh_at_cache_life(
    registry: RegistryView,
    key: Seq<char>,
    refreshed_at: u64,
    now: u64,
)
    requires
        registry.contains_key(key),
        registry[key].cache_ts == Some(refreshed_at),
        now - refreshed_at == registry[key].cache_life,
    ensures
        resolved(registry, key, now) == ResolutionView::Hit(registry[key].cache),
{
}

/// Cache expiry: a request that comes more than the cache life after the
/// last refresh starts one fan-out, with one invocation for each source in
/// the order of the sources; where every source succeeds, the answer is the
/// items of the sources, concatenated in that order.
pub proof fn law_cache_expiry(
    registry: RegistryView,
    key: Seq<char>,
    refreshed_at: u64,
    now: u64,
    outcomes: Seq<OutcomeView>,
)
    requires
        registry.contains_key(key),
        registry[key].cache_ts == Some(refreshed_at),
        now - refreshed_at > registry[key].cache_life,
        all_ok(outcomes),
    ensures
        resolved(registry, key, now) == ResolutionView::Refresh(registry[key].plan()),
        registry[key].plan().len() == registry[key].sources.len(),
        forall|i: int|
            0 <= i < registry[key].sources.len() ==> registry[key].plan()[i]
                == #[trigger] registry[key].sources[i].fetch(),
        completed_answer(outcomes) == Ok::<Seq<FeedItemView>, ServiceErrorView>(
            values(outcomes).flatten(),
        ),
{
}

/// Unknown key: a request for a key that the registry does not hold is
/// answered with "not found", whatever the registry holds under other keys
/// and whenever the request comes.
pub proof fn law_unknown_key(registry: RegistryView, key: Seq<char>, now: u64)
    requires
        !registry.contains_key(key),
    ensures
        resolved(registry, key, now) == ResolutionView::NotFound,
{
}

/// Failure preserves the cache: where a source fails, the request is
/// answered with an error and the registry stays as it was, so that every
/// later request is answered as if the refresh had not been tried.
pub proof fn law_failure_preserves_cache(
    registry: RegistryView,
    key: Seq<char>,
    outcomes: Seq<OutcomeView>,
    failed: int,
    now: u64,
)
    requires
        0 <= failed < outcomes.len(),
        outcomes[failed] is Err,
    ensures
        completed_answer(outcomes) is Err,
        completed_registry(registry, key, outcomes, now) == registry,
        forall|other: Seq<char>, later: u64| #[trigger]
            resolved(completed_registry(registry, key, outcomes, now), other, later) == resolved(
                registry,
                other,
                later,
            ),
{
    lemma_some_err(outcomes, failed);
}

/// A reload fetches nothing by itself: every profile of a registry that
/// was loaded from a configuration has never been refreshed and holds no
/// items.
pub proof fn law_reload_fetches_nothing(entries: Seq<(Seq<char>, ProfileView)>, key: Seq<char>)
    requires
        loaded(entries).contains_key(key),
    ensures
        loaded(entries)[key].cache_ts is None,
        loaded(entries)[key].cache.len() == 0,
    decreases entries.len(),
{
    if entries.len() > 0 {
        if entries.last().0 != key {
            law_reload_fetches_nothing(entries.drop_last(), key);
        }
    }
}

/// Reload forces refresh: after a reload, the first request for any
/// profile of the new configuration starts a fan-out, however lately the
/// profile of that key was refreshed before the reload.
pub proof fn law_reload_forces_refresh(
    entries: Seq<(Seq<char>, ProfileView)>,
    key: Seq<char>,
    now: u64,
)
    requires
        loaded(entries).contains_key(key),
    ensures
        resolved(loaded(entries), key, now) == ResolutionView::Refresh(loaded(entries)[key].plan()),
{
    law_reload_fetches_nothing(entries, key);
}

/// A configuration names the profiles of the registry it is loaded to: a
/// key is in the registry exactly if an entry has it.
pub proof fn law_loaded_keys(entries: Seq<(Seq<char>, ProfileView)>, key: Seq<char>)
    ensures
        loaded(entries).contains_key(key) <==> exists|i: int|
            0 <= i < entries.len() && (#[trigger] entries[i]).0 == key,
    decreases entries.len(),
{
    if entries.len() > 0 {
        let front = entries.drop_last();
        law_loaded_keys(front, key);
        if loaded(entries).contains_key(key) {
            if entries.last().0 == key {
                assert(entries[entries.len() - 1].0 == key);
            } else {
                let i = choose|i: int| 0 <= i < front.len() && (#[trigger] front[i]).0 == key;
                assert(entries[i].0 == key);
            }
        } else {
            assert forall|i: int| 0 <= i < entries.len() implies (#[trigger] entries[i]).0
                != key by {
                if i < front.len() {
                    assert(front[i].0 != key);
                }
            }
        }
    }
}

/// In a registry that was loaded from a configuration, every profile holds
/// items only together with the time they were fetched at.
pub proof fn law_loaded_wf(entries: Seq<(Seq<char>, ProfileView)>)
    ensures
        cache_states_wf(loaded(entries)),
{
    assert forall|key: Seq<char>| loaded(entries).contains_key(key) implies (#[trigger] loaded(
        entries,
    )[key]).wf() by {
        law_reload_fetches_nothing(entries, key);
    }
}

/// Overwriting a cache keeps timestamp and items together.
pub proof fn law_stored_wf(registry: RegistryView, key: Seq<char>, items: Seq<FeedItemView>, now: u64)
    requires
        cache_states_wf(registry),
    ensures
        cache_states_wf(stored(registry, key, items, now)),
{
}

/// Last writer wins: of two refreshes of one profile, the one that is
/// stored last decides what the cache holds.
pub proof fn law_last_writer_wins(
    registry: RegistryView,
    key: Seq<char>,
    first: Seq<FeedItemView>,
    first_at: u64,
    second: Seq<FeedItemView>,
    second_at: u64,
)
    ensures
        stored(stored(registry, key, first, first_at), key, second, second_at) == stored(
            registry,
            key,
            second,
            second_at,
        ),
{
    assert(stored(stored(registry, key, first, first_at), key, second, second_at) =~= stored(
        registry,
        key,
        second,
        second_at,
    ));
}

/// A write for a key that a reload removed is dropped: the registry stays
/// as the reload left it.
pub proof fn law_stale_write_dropped(
    registry: RegistryView,
    key: Seq<char>,
    outcomes: Seq<OutcomeView>,
    now: u64,
)
    requires
        !registry.contains_key(key),
    ensures
        completed_registry(registry, key, outcomes, now) == registry,
{
}

/// Deterministic stub source: every invocation of a stub source that is
/// configured with a count comes to exactly that many items, each of them
/// the placeholder; nothing else enters into it.
pub proof fn law_stub_source(count: nat)
    ensures
        SourceView::Dummy(count).fetch() == FetchView::Ready(placeholders(count)),
        placeholders(count).len() == count,
        forall|i: int| 0 <= i < count ==> #[trigger] placeholders(count)[i] == placeholder(),
{
}

/// At the service: a path that names no profile is answered with the
/// status for "not found" and an empty body.
pub proof fn law_unknown_path_response(registry: RegistryView, path: Seq<char>, now: u64)
    requires
        !registry.contains_key(key_of(path)),
    ensures
        served(registry, path, now) matches StepView::Answer(answer) && response_to(answer) == (
        ResponseView { status: STATUS_NOT_FOUND, body: Seq::empty() }),
{
}

/// At the service: while the cache is fresh, the request is answered at
/// once with the success status and the feed document of the cached items.
pub proof fn law_fresh_path_response(registry: RegistryView, path: Seq<char>, now: u64)
    requires
        registry.contains_key(key_of(path)),
        !registry[key_of(path)].is_stale(now),
    ensures
        served(registry, path, now) matches StepView::Answer(answer) && response_to(answer) == (
        ResponseView { status: STATUS_OK, body: feed_document(registry[key_of(path)].cache) }),
{
}

/// At the service: a refresh in which a source failed is answered with the
/// status for a server error and the diagnostic text of the failure.
pub proof fn law_failed_refresh_response(outcomes: Seq<OutcomeView>, failed: int)
    requires
        0 <= failed < outcomes.len(),
        outcomes[failed] is Err,
    ensures
        response_to(completed_answer(outcomes)).status == STATUS_SERVER_ERROR,
        response_to(completed_answer(outcomes)).body == outcomes[first_err(
            outcomes,
        )]->Err_0.message(),
{
    lemma_some_err(outcomes, failed);
}

} // verus!
