//! The feed service: from the path of a request to the key of a profile,
//! and from the answer of the coordinator to the response.

use vstd::prelude::*;
use vstd::string::StrSliceExecFns;
use crate::common::{Fetch, FetchView, ServiceError, ServiceErrorView};
use crate::item::{FeedItem, FeedItemView};
use crate::refresh::{answer_view, resolve, resolved, Resolution, ResolutionView};
use crate::registry::{ProfileRegistry, RegistryView};
use crate::trusted::{feed_document, make_channel};

verus! {

/// The status of a response that carries a feed document.
pub const STATUS_OK: u16 = 200;

/// The status of the response to a request for an unknown profile.
pub const STATUS_NOT_FOUND: u16 = 404;

/// The status of the response to a request that failed.
pub const STATUS_SERVER_ERROR: u16 = 500;

/// The profile key that a request path names: the path without its
/// leading separator.
pub open spec fn key_of(path: Seq<char>) -> Seq<char> {
    if path.len() > 0 && path[0] == '/' {
        path.skip(1)
    } else {
        path
    }
}

/// Extracts the profile key from the path of a request.
pub fn profile_key(path: &str) -> (key: String)
    ensures
        key@ == key_of(path@),
{
    let length = path.unicode_len();
    if length > 0 && path.get_char(0) == '/' {
        path.substring_char(1, length).to_owned()
    } else {
        path.to_owned()
    }
}

/// What goes back to the client.
#[derive(Debug, PartialEq, Eq)]
pub struct Response {
    /// The HTTP status code.
    pub status: u16,
    /// The body of the response.
    pub body: String,
}

/// The response that carries a feed document.
pub fn make_response(document: String) -> (response: Response)
    ensures
        response.status == STATUS_OK,
        response.body@ == document@,
{
    Response { status: STATUS_OK, body: document }
}

/// The status that an error is answered with.
pub open spec fn error_status(error: ServiceErrorView) -> u16 {
    match error {
        ServiceErrorView::NotFound => STATUS_NOT_FOUND,
        ServiceErrorView::Fetch(_) => STATUS_SERVER_ERROR,
        ServiceErrorView::RegistryAccess(_) => STATUS_SERVER_ERROR,
    }
}

/// The body that an error is answered with: nothing for an unknown
/// profile, else the diagnostic text of the error.
pub open spec fn error_body(error: ServiceErrorView) -> Seq<char> {
    match error {
        ServiceErrorView::NotFound => Seq::empty(),
        ServiceErrorView::Fetch(failure) => failure.message(),
        ServiceErrorView::RegistryAccess(text) => text,
    }
}

/// The response to a request that could not be served.
pub fn response_error(error: ServiceError) -> (response: Response)
    ensures
        response.status == error_status(error@),
        response.body@ == error_body(error@),
{
    match error {
        ServiceError::NotFound => Response { status: STATUS_NOT_FOUND, body: String::new() },
        ServiceError::Fetch(failure) => Response {
            status: STATUS_SERVER_ERROR,
            body: failure.message(),
        },
        ServiceError::RegistryAccess(text) => Response { status: STATUS_SERVER_ERROR, body: text },
    }
}

/// The mathematical value of a [`Response`].
pub ghost struct ResponseView {
    pub status: u16,
    pub body: Seq<char>,
}

impl View for Response {
    type V = ResponseView;

    open spec fn view(&self) -> ResponseView {
        ResponseView { status: self.status, body: self.body@ }
    }
}

impl DeepView for Response {
    type V = ResponseView;

    open spec fn deep_view(&self) -> ResponseView {
        self@
    }
}

/// The response to an answer of the coordinator: the feed document of the
/// items with a success status, or the response of the error.
pub open spec fn response_to(answer: Result<Seq<FeedItemView>, ServiceErrorView>) -> ResponseView {
    match answer {
        Ok(items) => ResponseView { status: STATUS_OK, body: feed_document(items) },
        Err(error) => ResponseView { status: error_status(error), body: error_body(error) },
    }
}

/// Renders the answer to a request. This needs no registry.
pub fn respond(answer: Result<Vec<FeedItem>, ServiceError>) -> (response: Response)
    ensures
        response@ == response_to(answer_view(answer)),
{
    match answer {
        Ok(items) => make_response(make_channel(&items)),
        Err(error) => response_error(error),
    }
}

/// How the service goes on with a request.
#[derive(Debug, PartialEq, Eq)]
pub enum Step {
    /// The request is settled: this is its answer, to be rendered by
    /// [`respond`].
    Answer(Result<Vec<FeedItem>, ServiceError>),
    /// The profile under `key` has to be refreshed first: `fetches` are to
    /// be carried out and their outcomes handed to
    /// [`complete`](crate::refresh::complete), whose answer is then
    /// rendered by [`respond`].
    Fetch { key: String, fetches: Vec<Fetch> },
}

/// The mathematical value of a [`Step`].
pub ghost enum StepView {
    Answer(Result<Seq<FeedItemView>, ServiceErrorView>),
    Fetch { key: Seq<char>, fetches: Seq<FetchView> },
}

impl View for Step {
    type V = StepView;

    open spec fn view(&self) -> StepView {
        match self {
            Step::Answer(answer) => StepView::Answer(answer_view(*answer)),
            Step::Fetch { key, fetches } => StepView::Fetch {
                key: key@,
                fetches: fetches.deep_view(),
            },
        }
    }
}

impl DeepView for Step {
    type V = StepView;

    open spec fn deep_view(&self) -> StepView {
        self@
    }
}

/// How a request for `path` at `now` goes on: with "not found" where the
/// path names no profile, with the cached items while the cache is fresh,
/// and else with the fan-out over the sources of the profile.
pub open spec fn served(registry: RegistryView, path: Seq<char>, now: u64) -> StepView {
    match resolved(registry, key_of(path), now) {
        ResolutionView::NotFound => StepView::Answer(Err(ServiceErrorView::NotFound)),
        ResolutionView::Hit(items) => StepView::Answer(Ok(items)),
        ResolutionView::Refresh(fetches) => StepView::Fetch { key: key_of(path), fetches },
    }
}

/// Takes up a request for `path` at `now`.
///
/// This is all that a request reads of the registry: a caller that shares
/// the registry holds it for this call and, where a refresh follows, for
/// the call of [`complete`](crate::refresh::complete), and neither while it
/// fetches nor while it renders.
pub fn serve_rss(registry: &ProfileRegistry, path: &str, now: u64) -> (step: Step)
    ensures
        step@ == served(registry@, path@, now),
{
    let key = profile_key(path);
    match resolve(registry, key.as_str(), now) {
        Resolution::NotFound => Step::Answer(Err(ServiceError::NotFound)),
        Resolution::Hit(items) => Step::Answer(Ok(items)),
        Resolution::Refresh(fetches) => Step::Fetch { key, fetches },
    }
}

} // verus!
