use rss_profiles::item::FeedItem;
use rss_profiles::profile::{antique, default_cache_life, Profile};
use rss_profiles::registry::ProfileRegistry;
use rss_profiles::sources::dummy::DummyFeedGenerator;
use rss_profiles::sources::gelbooru::GelbooruFeedGenerator;
use rss_profiles::sources::Source;

fn stub(limit: usize) -> Source {
    Source::Dummy(DummyFeedGenerator::new(limit))
}

fn item(title: &str) -> FeedItem {
    FeedItem {
        title: title.to_string(),
        link: format!("https://example.org/{}", title),
        description: String::new(),
        enclosure: None,
        pub_date: None,
    }
}

fn two_profiles() -> ProfileRegistry {
    ProfileRegistry::load(vec![
        ("art".to_string(), Profile::new(vec![stub(3)], 600)),
        (
            "news".to_string(),
            Profile::new(
                vec![
                    stub(1),
                    Source::Gelbooru(GelbooruFeedGenerator::new(
                        "k".to_string(),
                        "u".to_string(),
                        vec!["sky".to_string()],
                    )),
                ],
                30,
            ),
        ),
    ])
}

#[test]
fn never_refreshed_has_no_timestamp() {
    assert_eq!(antique(), None);
}

#[test]
fn default_cache_life_is_600_seconds() {
    assert_eq!(default_cache_life(), 600);
}

#[test]
fn new_profile_is_never_refreshed() {
    let profile = Profile::new(vec![stub(2)], 45);
    assert_eq!(profile.sources, vec![stub(2)]);
    assert_eq!(profile.cache_ts, None);
    assert!(profile.cache.is_empty());
    assert_eq!(profile.cache_life, 45);
}

#[test]
fn empty_registry_holds_nothing() {
    let registry = ProfileRegistry::new();
    assert_eq!(registry.len(), 0);
    assert!(!registry.contains("art"));
    assert_eq!(registry.get("art"), None);
    assert_eq!(registry.get_cache("art"), None);
}

#[test]
fn load_puts_each_profile_under_its_key() {
    let registry = two_profiles();
    assert_eq!(registry.len(), 2);
    assert!(registry.contains("art"));
    assert!(registry.contains("news"));
    assert!(!registry.contains("Art"));
    assert!(!registry.contains(""));
    assert_eq!(registry.get("art"), Some(Profile::new(vec![stub(3)], 600)));
    assert_eq!(registry.get("news").map(|profile| profile.cache_life), Some(30));
    assert_eq!(registry.get("news").map(|profile| profile.sources.len()), Some(2));
    assert_eq!(registry.get("sports"), None);
}

#[test]
fn load_of_nothing_is_empty() {
    assert_eq!(ProfileRegistry::load(vec![]).len(), 0);
}

#[test]
fn later_entry_replaces_earlier_one_with_the_same_key() {
    let registry = ProfileRegistry::load(vec![
        ("art".to_string(), Profile::new(vec![stub(3)], 600)),
        ("art".to_string(), Profile::new(vec![stub(5)], 60)),
    ]);
    assert_eq!(registry.len(), 1);
    assert_eq!(registry.get("art"), Some(Profile::new(vec![stub(5)], 60)));
}

#[test]
fn load_resets_the_cache_of_what_it_is_given() {
    let mut warm = Profile::new(vec![stub(1)], 600);
    warm.store(vec![item("old")], 17);
    assert_eq!(warm.cache_ts, Some(17));
    let registry = ProfileRegistry::load(vec![("art".to_string(), warm)]);
    assert_eq!(registry.get("art"), Some(Profile::new(vec![stub(1)], 600)));
    assert_eq!(registry.get_cache("art"), Some(vec![]));
}

#[test]
fn insert_adds_and_replaces() {
    let mut registry = two_profiles();
    registry.insert("sports".to_string(), Profile::new(vec![], 5));
    assert_eq!(registry.len(), 3);
    assert_eq!(registry.get("sports"), Some(Profile::new(vec![], 5)));
    registry.update_cache("art", vec![item("a")], 9);
    registry.insert("art".to_string(), Profile::new(vec![stub(4)], 6));
    assert_eq!(registry.len(), 3);
    assert_eq!(registry.get("art"), Some(Profile::new(vec![stub(4)], 6)));
}

#[test]
fn update_cache_sets_items_and_timestamp_together() {
    let mut registry = two_profiles();
    registry.update_cache("art", vec![item("a"), item("b")], 100);
    let profile = registry.get("art").unwrap();
    assert_eq!(profile.cache, vec![item("a"), item("b")]);
    assert_eq!(profile.cache_ts, Some(100));
    assert_eq!(profile.sources, vec![stub(3)]);
    assert_eq!(profile.cache_life, 600);
    assert_eq!(registry.get_cache("art"), Some(vec![item("a"), item("b")]));
    assert_eq!(registry.get("news").unwrap().cache_ts, None);
    assert_eq!(registry.len(), 2);
}

#[test]
fn update_cache_overwrites_whatever_was_there() {
    let mut registry = two_profiles();
    registry.update_cache("art", vec![item("late")], 200);
    registry.update_cache("art", vec![item("early")], 100);
    let profile = registry.get("art").unwrap();
    assert_eq!(profile.cache, vec![item("early")]);
    assert_eq!(profile.cache_ts, Some(100));
}

#[test]
fn update_cache_of_a_missing_key_is_dropped() {
    let mut registry = two_profiles();
    registry.update_cache("sports", vec![item("a")], 100);
    assert_eq!(registry.len(), 2);
    assert!(!registry.contains("sports"));
    assert_eq!(registry.get("art"), Some(Profile::new(vec![stub(3)], 600)));
}

#[test]
fn snapshot_does_not_follow_the_registry() {
    let mut registry = two_profiles();
    registry.update_cache("art", vec![item("a")], 1);
    let snapshot = registry.get("art").unwrap();
    registry.update_cache("art", vec![item("b")], 2);
    assert_eq!(snapshot.cache, vec![item("a")]);
    assert_eq!(snapshot.cache_ts, Some(1));
    assert_eq!(registry.get_cache("art"), Some(vec![item("b")]));
}

#[test]
fn replace_all_leaves_nothing_of_the_old_registry() {
    let mut registry = two_profiles();
    registry.update_cache("art", vec![item("a")], 1);
    registry.replace_all(ProfileRegistry::load(vec![
        ("art".to_string(), Profile::new(vec![stub(5)], 600)),
        ("music".to_string(), Profile::new(vec![], 10)),
    ]));
    assert_eq!(registry.len(), 2);
    assert!(!registry.contains("news"));
    assert_eq!(registry.get("art"), Some(Profile::new(vec![stub(5)], 600)));
    assert_eq!(registry.get("music"), Some(Profile::new(vec![], 10)));
}
