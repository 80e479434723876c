//! The feed item: what a source produces and what a profile caches.

use vstd::prelude::*;

verus! {

/// One entry of a feed.
#[derive(Debug, PartialEq, Eq)]
pub struct FeedItem {
    /// The title of the item.
    pub title: String,
    /// The URL the item points to.
    pub link: String,
    /// The synopsis of the item.
    pub description: String,
    /// The URL of the media object attached to the item, if any.
    pub enclosure: Option<String>,
    /// The publication date as an RFC 2822 timestamp, if known.
    pub pub_date: Option<String>,
}

/// The mathematical value of a [`FeedItem`]: its texts as character sequences.
pub ghost struct FeedItemView {
    pub title: Seq<char>,
    pub link: Seq<char>,
    pub description: Seq<char>,
    pub enclosure: Option<Seq<char>>,
    pub pub_date: Option<Seq<char>>,
}

impl View for FeedItem {
    type V = FeedItemView;

    open spec fn view(&self) -> FeedItemView {
        FeedItemView {
            title: self.title@,
            link: self.link@,
            description: self.description@,
            enclosure: self.enclosure.deep_view(),
            pub_date: self.pub_date.deep_view(),
        }
    }
}

impl DeepView for FeedItem {
    type V = FeedItemView;

    open spec fn deep_view(&self) -> FeedItemView {
        self@
    }
}

impl Clone for FeedItem {
    fn clone(&self) -> (copy: Self)
        ensures
            copy@ == self@,
    {
        FeedItem {
            title: self.title.clone(),
            link: self.link.clone(),
            description: self.description.clone(),
            enclosure: self.enclosure.clone(),
            pub_date: self.pub_date.clone(),
        }
    }
}

/// Copies a list of items, keeping every item and the order.
pub fn clone_items(items: &Vec<FeedItem>) -> (copy: Vec<FeedItem>)
    ensures
        copy.deep_view() == items.deep_view(),
{
    let copy = items.clone();
    assert(copy.deep_view() =~= items.deep_view());
    copy
}

} // verus!
