use rss_profiles::common::{Fetch, Outcome, RssError, ServiceError};
use rss_profiles::item::FeedItem;
use rss_profiles::profile::Profile;
use rss_profiles::refresh::{complete, join_all, resolve, vecvec_into_vec, Resolution};
use rss_profiles::registry::ProfileRegistry;
use rss_profiles::sources::dummy::DummyFeedGenerator;
use rss_profiles::sources::gelbooru::GelbooruFeedGenerator;
use rss_profiles::sources::Source;

fn stub(limit: usize) -> Source {
    Source::Dummy(DummyFeedGenerator::new(limit))
}

fn remote(tag: &str) -> Source {
    Source::Gelbooru(GelbooruFeedGenerator::new(
        "k".to_string(),
        "u".to_string(),
        vec![tag.to_string()],
    ))
}

fn remote_url(tag: &str) -> String {
    format!(
        "https://gelbooru.com/index.php?json=1&page=dapi&s=post&q=index&tags={}&user_id=u&api_key=k",
        tag
    )
}

fn placeholder() -> FeedItem {
    FeedItem {
        title: "dummy".to_string(),
        link: "dummy.link".to_string(),
        description: "dummy description".to_string(),
        enclosure: None,
        pub_date: None,
    }
}

fn item(title: &str) -> FeedItem {
    FeedItem {
        title: title.to_string(),
        link: format!("https://example.org/{}", title),
        description: format!("about {}", title),
        enclosure: Some(format!("https://example.org/{}.png", title)),
        pub_date: Some("Thu, 1 Jan 1970 00:00:00 +0000".to_string()),
    }
}

fn registry(ttl: u64) -> ProfileRegistry {
    ProfileRegistry::load(vec![
        ("art".to_string(), Profile::new(vec![stub(3)], ttl)),
        (
            "mixed".to_string(),
            Profile::new(vec![remote("sky"), stub(1), remote("sea")], ttl),
        ),
    ])
}

/// Carries out the fetches that need no network and counts them.
fn run_local(fetches: Vec<Fetch>, invocations: &mut usize) -> Vec<Outcome> {
    fetches
        .into_iter()
        .map(|fetch| {
            *invocations += 1;
            match fetch {
                Fetch::Ready(items) => Ok(items),
                Fetch::Remote(url) => Err(RssError::ReqwestError(url)),
            }
        })
        .collect()
}

#[test]
fn unknown_key_is_not_found() {
    let mut registry = registry(600);
    assert_eq!(resolve(&registry, "sports", 0), Resolution::NotFound);
    assert_eq!(resolve(&registry, "", 0), Resolution::NotFound);
    assert_eq!(resolve(&registry, "ART", 0), Resolution::NotFound);
    registry.update_cache("art", vec![item("a")], 5);
    assert_eq!(resolve(&registry, "sports", 6), Resolution::NotFound);
    assert_eq!(resolve(&registry, "sports", u64::MAX), Resolution::NotFound);
}

#[test]
fn never_refreshed_profile_is_stale_at_any_time() {
    let registry = registry(600);
    let plan = vec![placeholder(), placeholder(), placeholder()];
    assert_eq!(
        resolve(&registry, "art", 0),
        Resolution::Refresh(vec![Fetch::Ready(plan.clone())])
    );
    assert_eq!(
        resolve(&registry, "art", u64::MAX),
        Resolution::Refresh(vec![Fetch::Ready(plan)])
    );
}

#[test]
fn fan_out_has_one_fetch_for_each_source_in_order() {
    let registry = registry(600);
    assert_eq!(
        resolve(&registry, "mixed", 10),
        Resolution::Refresh(vec![
            Fetch::Remote(remote_url("sky")),
            Fetch::Ready(vec![placeholder()]),
            Fetch::Remote(remote_url("sea")),
        ])
    );
    assert_eq!(
        registry.get("mixed").unwrap().fan_out(),
        vec![
            Fetch::Remote(remote_url("sky")),
            Fetch::Ready(vec![placeholder()]),
            Fetch::Remote(remote_url("sea")),
        ]
    );
}

#[test]
fn profile_without_sources_has_an_empty_fan_out() {
    let mut registry = ProfileRegistry::load(vec![("none".to_string(), Profile::new(vec![], 10))]);
    assert_eq!(resolve(&registry, "none", 0), Resolution::Refresh(vec![]));
    assert_eq!(complete(&mut registry, "none", vec![], 0), Ok(vec![]));
    assert_eq!(resolve(&registry, "none", 10), Resolution::Hit(vec![]));
    assert_eq!(resolve(&registry, "none", 11), Resolution::Refresh(vec![]));
}

#[test]
fn staleness_is_strictly_more_than_the_cache_life() {
    let mut profile = Profile::new(vec![], 600);
    assert!(profile.cache_need_refresh(0));
    profile.store(vec![item("a")], 1000);
    assert!(!profile.cache_need_refresh(1000));
    assert!(!profile.cache_need_refresh(1001));
    assert!(!profile.cache_need_refresh(1599));
    assert!(!profile.cache_need_refresh(1600));
    assert!(profile.cache_need_refresh(1601));
    assert!(profile.cache_need_refresh(u64::MAX));
}

#[test]
fn a_clock_reading_before_the_refresh_is_not_stale() {
    let mut profile = Profile::new(vec![], 600);
    profile.store(vec![], 1000);
    assert!(!profile.cache_need_refresh(999));
    assert!(!profile.cache_need_refresh(0));
}

#[test]
fn cache_life_zero_is_stale_one_second_later() {
    let mut profile = Profile::new(vec![], 0);
    profile.store(vec![], 50);
    assert!(!profile.cache_need_refresh(50));
    assert!(profile.cache_need_refresh(51));
}

#[test]
fn longest_cache_life_never_goes_stale() {
    let mut profile = Profile::new(vec![], u64::MAX);
    profile.store(vec![], 0);
    assert!(!profile.cache_need_refresh(u64::MAX));
}

#[test]
fn store_sets_items_and_timestamp_together() {
    let mut profile = Profile::new(vec![stub(1)], 5);
    profile.store(vec![item("a")], 3);
    assert_eq!(profile.cache, vec![item("a")]);
    assert_eq!(profile.cache_ts, Some(3));
    assert_eq!(profile.sources, vec![stub(1)]);
    assert_eq!(profile.cache_life, 5);
}

#[test]
fn cache_hit_returns_the_cached_items_without_any_fetch() {
    let mut registry = registry(600);
    assert_eq!(
        complete(&mut registry, "art", vec![Ok(vec![item("a"), item("b")])], 100),
        Ok(vec![item("a"), item("b")])
    );
    for now in [100, 101, 400, 699, 700] {
        assert_eq!(
            resolve(&registry, "art", now),
            Resolution::Hit(vec![item("a"), item("b")])
        );
    }
}

#[test]
fn cache_expiry_starts_one_fan_out_and_returns_the_concatenation() {
    let mut registry = registry(600);
    complete(&mut registry, "mixed", vec![Ok(vec![item("old")])], 100).unwrap();
    let resolution = resolve(&registry, "mixed", 701);
    assert_eq!(
        resolution,
        Resolution::Refresh(vec![
            Fetch::Remote(remote_url("sky")),
            Fetch::Ready(vec![placeholder()]),
            Fetch::Remote(remote_url("sea")),
        ])
    );
    let answer = complete(
        &mut registry,
        "mixed",
        vec![
            Ok(vec![item("sky1"), item("sky2")]),
            Ok(vec![placeholder()]),
            Ok(vec![item("sea1")]),
        ],
        701,
    );
    let merged = vec![item("sky1"), item("sky2"), placeholder(), item("sea1")];
    assert_eq!(answer, Ok(merged.clone()));
    assert_eq!(resolve(&registry, "mixed", 702), Resolution::Hit(merged.clone()));
    assert_eq!(registry.get("mixed").unwrap().cache_ts, Some(701));
    assert_eq!(registry.get_cache("mixed"), Some(merged));
}

#[test]
fn failure_preserves_the_stale_cache() {
    let mut registry = registry(600);
    complete(&mut registry, "mixed", vec![Ok(vec![item("good")])], 100).unwrap();
    let before = registry.get("mixed");
    let answer = complete(
        &mut registry,
        "mixed",
        vec![
            Ok(vec![item("new")]),
            Err(RssError::ReqwestError("connection refused".to_string())),
            Ok(vec![item("newer")]),
        ],
        800,
    );
    assert_eq!(
        answer,
        Err(ServiceError::Fetch(RssError::ReqwestError(
            "connection refused".to_string()
        )))
    );
    assert_eq!(registry.get("mixed"), before);
    assert_eq!(registry.get_cache("mixed"), Some(vec![item("good")]));
    assert_eq!(registry.get("mixed").unwrap().cache_ts, Some(100));
    assert_eq!(resolve(&registry, "mixed", 650), Resolution::Hit(vec![item("good")]));
}

#[test]
fn failure_of_the_first_refresh_leaves_the_profile_never_refreshed() {
    let mut registry = registry(600);
    let answer = complete(
        &mut registry,
        "art",
        vec![Err(RssError::StringError("bad payload".to_string()))],
        5,
    );
    assert_eq!(
        answer,
        Err(ServiceError::Fetch(RssError::StringError("bad payload".to_string())))
    );
    assert_eq!(registry.get("art"), Some(Profile::new(vec![stub(3)], 600)));
}

#[test]
fn the_first_failure_in_source_order_is_reported() {
    assert_eq!(
        join_all(vec![
            Ok(vec![item("a")]),
            Err(RssError::StringError("second".to_string())),
            Err(RssError::ReqwestError("third".to_string())),
        ]),
        Err(RssError::StringError("second".to_string()))
    );
    assert_eq!(
        join_all(vec![Err(RssError::ReqwestError("first".to_string())), Ok(vec![])]),
        Err(RssError::ReqwestError("first".to_string()))
    );
}

#[test]
fn join_all_keeps_the_lists_apart_and_in_order() {
    assert_eq!(
        join_all(vec![Ok(vec![item("a"), item("b")]), Ok(vec![]), Ok(vec![item("c")])]),
        Ok(vec![vec![item("a"), item("b")], vec![], vec![item("c")]])
    );
    assert_eq!(join_all(vec![]), Ok(vec![]));
}

#[test]
fn vecvec_into_vec_concatenates_in_order() {
    assert_eq!(
        vecvec_into_vec(vec![
            vec![item("a"), item("b")],
            vec![],
            vec![item("c")],
            vec![item("a")],
        ]),
        vec![item("a"), item("b"), item("c"), item("a")]
    );
    assert_eq!(vecvec_into_vec(vec![]), Vec::<FeedItem>::new());
    assert_eq!(vecvec_into_vec(vec![vec![], vec![]]), Vec::<FeedItem>::new());
}

#[test]
fn refresh_of_a_key_that_was_removed_is_answered_but_not_stored() {
    let mut registry = registry(600);
    let started = resolve(&registry, "art", 0);
    assert!(matches!(started, Resolution::Refresh(_)));
    registry.replace_all(ProfileRegistry::load(vec![(
        "news".to_string(),
        Profile::new(vec![stub(1)], 600),
    )]));
    assert_eq!(
        complete(&mut registry, "art", vec![Ok(vec![item("a")])], 1),
        Ok(vec![item("a")])
    );
    assert!(!registry.contains("art"));
    assert_eq!(registry.len(), 1);
    assert_eq!(registry.get("news"), Some(Profile::new(vec![stub(1)], 600)));
}

#[test]
fn last_writer_wins() {
    let mut registry = registry(600);
    complete(&mut registry, "art", vec![Ok(vec![item("started second")])], 20).unwrap();
    complete(&mut registry, "art", vec![Ok(vec![item("started first")])], 10).unwrap();
    assert_eq!(registry.get_cache("art"), Some(vec![item("started first")]));
    assert_eq!(registry.get("art").unwrap().cache_ts, Some(10));
}

#[test]
fn reload_forces_a_refresh() {
    let mut registry = registry(600);
    complete(&mut registry, "art", vec![Ok(vec![item("a")])], 100).unwrap();
    assert_eq!(resolve(&registry, "art", 101), Resolution::Hit(vec![item("a")]));
    registry.replace_all(ProfileRegistry::load(vec![(
        "art".to_string(),
        Profile::new(vec![stub(3)], 600),
    )]));
    assert_eq!(
        resolve(&registry, "art", 101),
        Resolution::Refresh(vec![Fetch::Ready(vec![
            placeholder(),
            placeholder(),
            placeholder()
        ])])
    );
}

#[test]
fn art_profile_from_first_request_to_reload() {
    let mut invocations = 0;
    let mut registry = ProfileRegistry::load(vec![(
        "art".to_string(),
        Profile::new(vec![stub(3)], rss_profiles::profile::default_cache_life()),
    )]);

    let first = match resolve(&registry, "art", 0) {
        Resolution::Refresh(fetches) => {
            let outcomes = run_local(fetches, &mut invocations);
            complete(&mut registry, "art", outcomes, 0)
        }
        other => panic!("the first request has to refresh: {:?}", other),
    };
    assert_eq!(first, Ok(vec![placeholder(), placeholder(), placeholder()]));
    assert_eq!(invocations, 1);

    let second = resolve(&registry, "art", 599);
    assert_eq!(
        second,
        Resolution::Hit(vec![placeholder(), placeholder(), placeholder()])
    );
    assert_eq!(invocations, 1);

    registry.replace_all(ProfileRegistry::load(vec![(
        "art".to_string(),
        Profile::new(vec![stub(5)], rss_profiles::profile::default_cache_life()),
    )]));
    let third = match resolve(&registry, "art", 600) {
        Resolution::Refresh(fetches) => {
            let outcomes = run_local(fetches, &mut invocations);
            complete(&mut registry, "art", outcomes, 600)
        }
        other => panic!("the request after a reload has to refresh: {:?}", other),
    };
    assert_eq!(third.map(|items| items.len()), Ok(5));
    assert_eq!(invocations, 2);
    assert_eq!(
        registry.get_cache("art"),
        Some(vec![
            placeholder(),
            placeholder(),
            placeholder(),
            placeholder(),
            placeholder()
        ])
    );
}

#[test]
fn two_requests_for_a_stale_profile_both_refresh() {
    let mut registry = registry(600);
    let first = resolve(&registry, "art", 0);
    let second = resolve(&registry, "art", 0);
    assert!(matches!(first, Resolution::Refresh(_)));
    assert_eq!(first, second);
    assert_eq!(
        complete(&mut registry, "art", vec![Ok(vec![item("one")])], 1),
        Ok(vec![item("one")])
    );
    assert_eq!(
        complete(&mut registry, "art", vec![Ok(vec![item("two")])], 2),
        Ok(vec![item("two")])
    );
    assert_eq!(resolve(&registry, "art", 3), Resolution::Hit(vec![item("two")]));
}

#[test]
fn refresh_that_ends_after_a_reload_writes_to_the_profile_that_kept_its_key() {
    let mut registry = registry(600);
    assert!(matches!(resolve(&registry, "art", 0), Resolution::Refresh(_)));
    registry.replace_all(ProfileRegistry::load(vec![(
        "art".to_string(),
        Profile::new(vec![stub(5)], 30),
    )]));
    assert_eq!(
        complete(&mut registry, "art", vec![Ok(vec![item("old sources")])], 1),
        Ok(vec![item("old sources")])
    );
    let profile = registry.get("art").unwrap();
    assert_eq!(profile.sources, vec![stub(5)]);
    assert_eq!(profile.cache_life, 30);
    assert_eq!(profile.cache, vec![item("old sources")]);
    assert_eq!(profile.cache_ts, Some(1));
}
