use rss_profiles::common::{FeedGenerator, Fetch};
use rss_profiles::item::FeedItem;
use rss_profiles::sources::dummy::{default_limit, DummyFeedGenerator};
use rss_profiles::sources::Source;

fn placeholder() -> FeedItem {
    FeedItem {
        title: "dummy".to_string(),
        link: "dummy.link".to_string(),
        description: "dummy description".to_string(),
        enclosure: None,
        pub_date: None,
    }
}

#[test]
fn default_limit_is_ten() {
    assert_eq!(default_limit(), 10);
    assert_eq!(DummyFeedGenerator::default().limit(), 10);
}

#[test]
fn stub_keeps_its_count() {
    assert_eq!(DummyFeedGenerator::new(7).limit(), 7);
}

#[test]
fn placeholder_item_has_the_fixed_texts() {
    assert_eq!(DummyFeedGenerator::placeholder_item(), placeholder());
}

#[test]
fn stub_produces_exactly_its_count() {
    let source = DummyFeedGenerator::new(3);
    assert_eq!(
        source.get_items(),
        Fetch::Ready(vec![placeholder(), placeholder(), placeholder()])
    );
}

#[test]
fn stub_with_count_zero_produces_nothing() {
    assert_eq!(DummyFeedGenerator::new(0).get_items(), Fetch::Ready(vec![]));
}

#[test]
fn stub_with_default_count_produces_ten() {
    match DummyFeedGenerator::default().get_items() {
        Fetch::Ready(items) => {
            assert_eq!(items.len(), 10);
            assert!(items.iter().all(|item| *item == placeholder()));
        }
        other => panic!("a stub source fetches nothing: {:?}", other),
    }
}

#[test]
fn stub_is_the_same_at_every_invocation() {
    let source = DummyFeedGenerator::new(5);
    let first = source.get_items();
    let second = source.get_items();
    let third = source.clone().get_items();
    assert_eq!(first, second);
    assert_eq!(second, third);
    match first {
        Fetch::Ready(items) => assert_eq!(items.len(), 5),
        other => panic!("a stub source fetches nothing: {:?}", other),
    }
}

#[test]
fn source_dispatches_to_the_stub() {
    let source = Source::Dummy(DummyFeedGenerator::new(2));
    assert_eq!(
        source.get_items(),
        Fetch::Ready(vec![placeholder(), placeholder()])
    );
}
