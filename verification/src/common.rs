//! What every source has in common: the errors a fetch can end in, the work
//! a source asks for, and the capability to produce feed items.

use vstd::prelude::*;
use crate::item::{FeedItem, FeedItemView};

verus! {

/// Why a source could not produce its items.
#[derive(Debug, PartialEq, Eq)]
pub enum RssError {
    /// The request to the provider failed; the text is the transport's report.
    ReqwestError(String),
    /// The provider answered, but no well-formed item could be made of it.
    StringError(String),
}

/// The mathematical value of an [`RssError`].
pub ghost enum RssErrorView {
    ReqwestError(Seq<char>),
    StringError(Seq<char>),
}

impl View for RssError {
    type V = RssErrorView;

    open spec fn view(&self) -> RssErrorView {
        match self {
            RssError::ReqwestError(text) => RssErrorView::ReqwestError(text@),
            RssError::StringError(text) => RssErrorView::StringError(text@),
        }
    }
}

impl DeepView for RssError {
    type V = RssErrorView;

    open spec fn deep_view(&self) -> RssErrorView {
        self@
    }
}

impl RssErrorView {
    /// The diagnostic text that the error carries.
    pub open spec fn message(self) -> Seq<char> {
        match self {
            RssErrorView::ReqwestError(text) => text,
            RssErrorView::StringError(text) => text,
        }
    }
}

impl Clone for RssError {
    fn clone(&self) -> (copy: Self)
        ensures
            copy@ == self@,
    {
        match self {
            RssError::ReqwestError(text) => RssError::ReqwestError(text.clone()),
            RssError::StringError(text) => RssError::StringError(text.clone()),
        }
    }
}

impl RssError {
    /// The diagnostic text that the error carries.
    pub fn message(&self) -> (text: String)
        ensures
            text@ == self@.message(),
    {
        match self {
            RssError::ReqwestError(text) => text.clone(),
            RssError::StringError(text) => text.clone(),
        }
    }
}

/// What one invocation of a source ended in: its items, or why there are none.
pub type Outcome = Result<Vec<FeedItem>, RssError>;

/// The mathematical value of an [`Outcome`].
pub type OutcomeView = Result<Seq<FeedItemView>, RssErrorView>;

/// The mathematical value of the outcome of one invocation.
pub open spec fn outcome_view(outcome: Outcome) -> OutcomeView {
    match outcome {
        Ok(items) => Ok(items.deep_view()),
        Err(error) => Err(error@),
    }
}

/// The mathematical values of a list of outcomes.
pub open spec fn outcome_views(outcomes: Seq<Outcome>) -> Seq<OutcomeView> {
    outcomes.map_values(|outcome: Outcome| outcome_view(outcome))
}

/// Why a request could not be served.
#[derive(Debug, PartialEq, Eq)]
pub enum ServiceError {
    /// The registry holds no profile under the requested key.
    NotFound,
    /// A source failed during the refresh.
    Fetch(RssError),
    /// The registry could not be reached; the text says why.
    RegistryAccess(String),
}

/// The mathematical value of a [`ServiceError`].
pub ghost enum ServiceErrorView {
    NotFound,
    Fetch(RssErrorView),
    RegistryAccess(Seq<char>),
}

impl View for ServiceError {
    type V = ServiceErrorView;

    open spec fn view(&self) -> ServiceErrorView {
        match self {
            ServiceError::NotFound => ServiceErrorView::NotFound,
            ServiceError::Fetch(error) => ServiceErrorView::Fetch(error@),
            ServiceError::RegistryAccess(text) => ServiceErrorView::RegistryAccess(text@),
        }
    }
}

impl DeepView for ServiceError {
    type V = ServiceErrorView;

    open spec fn deep_view(&self) -> ServiceErrorView {
        self@
    }
}

/// The work one invocation of a source comes to.
#[derive(Debug, PartialEq, Eq)]
pub enum Fetch {
    /// The source produced its items by itself.
    Ready(Vec<FeedItem>),
    /// The items are behind an HTTP GET of this URL, which answers with a
    /// JSON list of posts.
    Remote(String),
}

/// The mathematical value of a [`Fetch`].
pub ghost enum FetchView {
    Ready(Seq<FeedItemView>),
    Remote(Seq<char>),
}

impl View for Fetch {
    type V = FetchView;

    open spec fn view(&self) -> FetchView {
        match self {
            Fetch::Ready(items) => FetchView::Ready(items.deep_view()),
            Fetch::Remote(url) => FetchView::Remote(url@),
        }
    }
}

impl DeepView for Fetch {
    type V = FetchView;

    open spec fn deep_view(&self) -> FetchView {
        self@
    }
}

/// A source of feed items.
///
/// Invoking a source does not touch the network: it yields the [`Fetch`]
/// that stands for the invocation, which depends on the source's stored
/// configuration and on nothing else.
pub trait FeedGenerator {
    /// The work that an invocation of this source comes to.
    spec fn fetch(&self) -> FetchView;

    /// Invokes the source once.
    fn get_items(&self) -> (fetch: Fetch)
        ensures
            fetch@ == self.fetch(),
    ;
}

} // verus!
