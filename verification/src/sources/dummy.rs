//! A stub source: a fixed placeholder item, repeated.

use vstd::prelude::*;
use crate::common::{FeedGenerator, Fetch, FetchView};
use crate::item::{FeedItem, FeedItemView};

verus! {

/// The number of items a stub source produces when its configuration names none.
pub fn default_limit() -> (limit: usize)
    ensures
        limit == 10,
{
    10
}

/// A source that produces the same placeholder item a configured number of times.
#[derive(Debug, PartialEq, Eq)]
pub struct DummyFeedGenerator {
    limit: usize,
}

/// The placeholder item of the stub source.
pub open spec fn placeholder() -> FeedItemView {
    FeedItemView {
        title: "dummy"@,
        link: "dummy.link"@,
        description: "dummy description"@,
        enclosure: None,
        pub_date: None,
    }
}

/// The items of a stub source that produces `limit` of them.
pub open spec fn placeholders(limit: nat) -> Seq<FeedItemView> {
    Seq::new(limit, |i: int| placeholder())
}

impl View for DummyFeedGenerator {
    type V = nat;

    closed spec fn view(&self) -> nat {
        self.limit as nat
    }
}

impl DeepView for DummyFeedGenerator {
    type V = nat;

    open spec fn deep_view(&self) -> nat {
        self@
    }
}

impl Clone for DummyFeedGenerator {
    fn clone(&self) -> (copy: Self)
        ensures
            copy@ == self@,
    {
        DummyFeedGenerator { limit: self.limit }
    }
}

impl Default for DummyFeedGenerator {
    fn default() -> (source: Self)
        ensures
            source@ == 10,
    {
        DummyFeedGenerator { limit: default_limit() }
    }
}

impl DummyFeedGenerator {
    /// A stub source that produces `limit` items.
    pub fn new(limit: usize) -> (source: Self)
        ensures
            source@ == limit,
    {
        DummyFeedGenerator { limit }
    }

    /// The number of items the source produces.
    pub fn limit(&self) -> (limit: usize)
        ensures
            limit == self@,
    {
        self.limit
    }

    /// Builds the placeholder item.
    pub fn placeholder_item() -> (item: FeedItem)
        ensures
            item@ == placeholder(),
    {
        FeedItem {
            title: "dummy".to_owned(),
            link: "dummy.link".to_owned(),
            description: "dummy description".to_owned(),
            enclosure: None,
            pub_date: None,
        }
    }
}

impl FeedGenerator for DummyFeedGenerator {
    /// As many placeholder items as the source is configured with, ready
    /// at once.
    open spec fn fetch(&self) -> FetchView {
        FetchView::Ready(placeholders(self@))
    }

    /// Produces the items of the source. Every invocation produces the
    /// same: the count and the texts are fixed.
    fn get_items(&self) -> (fetch: Fetch) {
        let mut items: Vec<FeedItem> = Vec::new();
        let mut produced: usize = 0;
        while produced < self.limit
            invariant
                produced <= self.limit,
                items@.len() == produced,
                forall|i: int| 0 <= i < items@.len() ==> (#[trigger] items@[i])@ == placeholder(),
            decreases self.limit - produced,
        {
            items.push(Self::placeholder_item());
            produced = produced + 1;
        }
        assert(items.deep_view() =~= placeholders(self@));
        Fetch::Ready(items)
    }
}

} // verus!
