//! The kinds of source a profile can draw on.

use vstd::prelude::*;
use crate::common::{FeedGenerator, Fetch, FetchView};
use crate::sources::dummy::{placeholders, DummyFeedGenerator};
use crate::sources::gelbooru::{GelbooruFeedGenerator, GelbooruSourceView};

pub mod dummy;
pub mod gelbooru;

verus! {

/// A configured source of feed items.
#[derive(Debug, PartialEq, Eq)]
pub enum Source {
    /// Posts of the Gelbooru API.
    Gelbooru(GelbooruFeedGenerator),
    /// Placeholder items.
    Dummy(DummyFeedGenerator),
}

/// The mathematical value of a [`Source`].
pub ghost enum SourceView {
    Gelbooru(GelbooruSourceView),
    /// A stub source and the number of items it produces.
    Dummy(nat),
}

impl View for Source {
    type V = SourceView;

    open spec fn view(&self) -> SourceView {
        match self {
            Source::Gelbooru(source) => SourceView::Gelbooru(source@),
            Source::Dummy(source) => SourceView::Dummy(source@),
        }
    }
}

impl DeepView for Source {
    type V = SourceView;

    open spec fn deep_view(&self) -> SourceView {
        self@
    }
}

impl SourceView {
    /// The work that an invocation of the source comes to.
    pub open spec fn fetch(self) -> FetchView {
        match self {
            SourceView::Gelbooru(source) => FetchView::Remote(source.request_url()),
            SourceView::Dummy(limit) => FetchView::Ready(placeholders(limit)),
        }
    }
}

impl Clone for Source {
    fn clone(&self) -> (copy: Self)
        ensures
            copy@ == self@,
    {
        match self {
            Source::Gelbooru(source) => Source::Gelbooru(source.clone()),
            Source::Dummy(source) => Source::Dummy(source.clone()),
        }
    }
}

impl FeedGenerator for Source {
    /// The work of the source of this kind.
    open spec fn fetch(&self) -> FetchView {
        self@.fetch()
    }

    /// Invokes the source of this kind.
    fn get_items(&self) -> (fetch: Fetch) {
        match self {
            Source::Gelbooru(source) => source.get_items(),
            Source::Dummy(source) => source.get_items(),
        }
    }
}

/// Copies a list of sources, keeping every source and the order.
pub fn clone_sources(sources: &Vec<Source>) -> (copy: Vec<Source>)
    ensures
        copy.deep_view() == sources.deep_view(),
{
    let copy = sources.clone();
    assert(copy.deep_view() =~= sources.deep_view());
    copy
}

} // verus!
