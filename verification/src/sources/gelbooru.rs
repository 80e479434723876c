//! A source backed by the Gelbooru post API.
//!
//! The source builds the request and turns the posts that come back into
//! feed items; sending the request is the caller's part.

use vstd::prelude::*;
use vstd::string::StringExecFns;
use vstd::utf8::encode_utf8;
use crate::common::{
    outcome_view, FeedGenerator, Fetch, FetchView, Outcome, OutcomeView, RssError, RssErrorView,
};
use crate::collect::{all_ok, collected, lemma_first_err, lemma_values_push, values};
use crate::item::{FeedItem, FeedItemView};
use crate::trusted::{
    format_rfc2822, percent_encode, percent_encoded, rfc2822_date, RFC2822_MAX, RFC2822_MIN,
};

verus! {

/// A source that lists the posts carrying every tag of a list.
#[derive(Debug, PartialEq, Eq)]
pub struct GelbooruFeedGenerator {
    api_key: String,
    user_id: String,
    /// The tags a post must carry.
    pub taglist: Vec<String>,
}

/// The mathematical value of a [`GelbooruFeedGenerator`].
pub ghost struct GelbooruSourceView {
    pub api_key: Seq<char>,
    pub user_id: Seq<char>,
    pub taglist: Seq<Seq<char>>,
}

/// The texts of a list, with one space between neighbours.
pub open spec fn joined_tags(tags: Seq<Seq<char>>) -> Seq<char>
    decreases tags.len(),
{
    if tags.len() == 0 {
        Seq::empty()
    } else if tags.len() == 1 {
        tags[0]
    } else {
        joined_tags(tags.drop_last()) + " "@ + tags.last()
    }
}

impl GelbooruSourceView {
    /// The URL that lists the posts of the source: the tags joined by
    /// spaces and percent-encoded, then the user and the key as given.
    pub open spec fn request_url(self) -> Seq<char> {
        "https://gelbooru.com/index.php?json=1&page=dapi&s=post&q=index&tags="@
            + percent_encoded(encode_utf8(joined_tags(self.taglist)))
            + "&user_id="@ + self.user_id
            + "&api_key="@ + self.api_key
    }
}

impl View for GelbooruFeedGenerator {
    type V = GelbooruSourceView;

    closed spec fn view(&self) -> GelbooruSourceView {
        GelbooruSourceView {
            api_key: self.api_key@,
            user_id: self.user_id@,
            taglist: self.taglist.deep_view(),
        }
    }
}

impl DeepView for GelbooruFeedGenerator {
    type V = GelbooruSourceView;

    open spec fn deep_view(&self) -> GelbooruSourceView {
        self@
    }
}

impl Clone for GelbooruFeedGenerator {
    fn clone(&self) -> (copy: Self)
        ensures
            copy@ == self@,
    {
        let taglist = self.taglist.clone();
        assert(taglist.deep_view() =~= self.taglist.deep_view());
        GelbooruFeedGenerator {
            api_key: self.api_key.clone(),
            user_id: self.user_id.clone(),
            taglist,
        }
    }
}

/// Joins the tags of a list with single spaces.
fn join_tags(tags: &Vec<String>) -> (joined: String)
    ensures
        joined@ == joined_tags(tags.deep_view()),
{
    let mut joined = String::new();
    let mut done: usize = 0;
    while done < tags.len()
        invariant
            done <= tags.len(),
            joined@ == joined_tags(tags.deep_view().take(done as int)),
        decreases tags.len() - done,
    {
        if done > 0 {
            joined.append(" ");
        }
        joined.append(tags[done].as_str());
        proof {
            let before = tags.deep_view().take(done as int);
            let after = tags.deep_view().take(done + 1);
            assert(after.drop_last() =~= before);
            assert(after.last() == tags[done as int]@);
            if done == 0 {
                assert(joined@ =~= tags[0]@);
            }
        }
        done = done + 1;
    }
    assert(tags.deep_view().take(done as int) =~= tags.deep_view());
    joined
}

impl GelbooruFeedGenerator {
    /// A source for the posts that carry every tag of `taglist`, asked for
    /// in the name of `user_id` with `api_key`.
    pub fn new(api_key: String, user_id: String, taglist: Vec<String>) -> (source: Self)
        ensures
            source@ == (GelbooruSourceView {
                api_key: api_key@,
                user_id: user_id@,
                taglist: taglist.deep_view(),
            }),
    {
        GelbooruFeedGenerator { api_key, user_id, taglist }
    }

    /// The key the source asks with.
    pub fn api_key(&self) -> (key: &str)
        ensures
            key@ == self@.api_key,
    {
        self.api_key.as_str()
    }

    /// The user the source asks for.
    pub fn user_id(&self) -> (user: &str)
        ensures
            user@ == self@.user_id,
    {
        self.user_id.as_str()
    }

    /// The URL to get the posts of this source from.
    pub fn request_url(&self) -> (url: String)
        ensures
            url@ == self@.request_url(),
    {
        let tags = join_tags(&self.taglist);
        let encoded = percent_encode(tags.as_str());
        let mut url = "https://gelbooru.com/index.php?json=1&page=dapi&s=post&q=index&tags=".to_owned();
        url.append(encoded.as_str());
        url.append("&user_id=");
        url.append(self.user_id.as_str());
        url.append("&api_key=");
        url.append(self.api_key.as_str());
        url
    }
}

impl FeedGenerator for GelbooruFeedGenerator {
    /// The posts behind the request URL of the source.
    open spec fn fetch(&self) -> FetchView {
        FetchView::Remote(self@.request_url())
    }

    /// Asks for the posts of the source. What comes back is turned into
    /// items by [`gelbooru_to_items`].
    fn get_items(&self) -> (fetch: Fetch) {
        Fetch::Remote(self.request_url())
    }
}

/// One post as the Gelbooru API lists it.
#[derive(Debug, PartialEq, Eq)]
pub struct GelbooruItem {
    pub source: String,
    pub directory: String,
    pub hash: String,
    pub width: u32,
    pub height: u32,
    pub id: u32,
    pub image: String,
    /// When the post last changed, in seconds since the start of 1970.
    pub change: i64,
    pub owner: String,
    pub parent_id: Option<u32>,
    pub rating: String,
    pub sample: bool,
    pub sample_height: u32,
    pub sample_width: u32,
    pub score: u32,
    /// The tags of the post, separated by spaces.
    pub tags: String,
    /// Where the file of the post can be had.
    pub file_url: String,
    pub created_at: String,
}

/// The text of the error for a post whose date cannot be written.
pub open spec fn date_error() -> Seq<char> {
    "post date cannot be written as RFC 2822"@
}

/// The feed item of a post with the given tags and file, published at the
/// given date; an error where there is no date.
pub open spec fn dated_item(tags: Seq<char>, file_url: Seq<char>, date: Option<Seq<char>>) -> Result<
    FeedItemView,
    RssErrorView,
> {
    match date {
        Some(text) => Ok(
            FeedItemView {
                title: tags,
                link: file_url,
                description: tags,
                enclosure: Some(file_url),
                pub_date: Some(text),
            },
        ),
        None => Err(RssErrorView::StringError(date_error())),
    }
}

/// The date of a post as a feed writes it, where it can.
pub open spec fn post_date(change: i64) -> Option<Seq<char>> {
    if RFC2822_MIN <= change <= RFC2822_MAX {
        rfc2822_date(change)
    } else {
        None
    }
}

/// The feed item that a post makes, or the error it ends in.
pub open spec fn post_item(post: GelbooruItem) -> Result<FeedItemView, RssErrorView> {
    dated_item(post.tags@, post.file_url@, post_date(post.change))
}

/// The mathematical value of an item or the error in its place.
pub open spec fn item_result_view(result: Result<FeedItem, RssError>) -> Result<
    FeedItemView,
    RssErrorView,
> {
    match result {
        Ok(item) => Ok(item@),
        Err(error) => Err(error@),
    }
}

/// Makes the feed item of a post whose date has been written already.
///
/// The tags are title and description, the file is link and enclosure.
/// Without a date there is no item.
pub fn gelbooru_dated(g_item: GelbooruItem, date: Option<String>) -> (result: Result<FeedItem, RssError>)
    ensures
        item_result_view(result) == dated_item(g_item.tags@, g_item.file_url@, date.deep_view()),
{
    match date {
        Some(text) => Ok(
            FeedItem {
                title: g_item.tags.clone(),
                link: g_item.file_url.clone(),
                description: g_item.tags,
                enclosure: Some(g_item.file_url),
                pub_date: Some(text),
            },
        ),
        None => Err(RssError::StringError("post date cannot be written as RFC 2822".to_owned())),
    }
}

/// Makes the feed item of a post.
///
/// Fails where the post's time of change lies outside the years that
/// RFC 2822 can write, or where no date comes back for it.
pub fn gelbooru_to_rss(g_item: GelbooruItem) -> (result: Result<FeedItem, RssError>)
    ensures
        item_result_view(result) == post_item(g_item),
{
    let date = if RFC2822_MIN <= g_item.change && g_item.change <= RFC2822_MAX {
        format_rfc2822(g_item.change)
    } else {
        None
    };
    gelbooru_dated(g_item, date)
}

/// The feed items of a list of posts, in the order of the posts; where a
/// post makes no item, the error of the first such post.
pub open spec fn posts_items(posts: Seq<GelbooruItem>) -> OutcomeView {
    collected(posts.map_values(|post: GelbooruItem| post_item(post)))
}

/// Makes the feed items of a list of posts, one item for each post and in
/// the same order. The first post that makes no item ends the work with
/// its error.
pub fn gelbooru_to_items(vec: Vec<GelbooruItem>) -> (outcome: Outcome)
    ensures
        outcome_view(outcome) == posts_items(vec@),
{
    let ghost posts = vec@;
    let ghost all = posts.map_values(|post: GelbooruItem| post_item(post));
    let mut items: Vec<FeedItem> = Vec::new();
    assert(items.deep_view() =~= values(all.take(0)));
    for post in iter: vec
        invariant
            iter.seq() == posts,
            all == posts.map_values(|post: GelbooruItem| post_item(post)),
            all_ok(all.take(iter.index() as int)),
            items.deep_view() == values(all.take(iter.index() as int)),
    {
        let ghost done = iter.index() as int;
        let ghost before = items.deep_view();
        assert(all[done] == post_item(post));
        match gelbooru_to_rss(post) {
            Ok(item) => {
                items.push(item);
                proof {
                    lemma_values_push(all.take(done), item@);
                    assert(all.take(done + 1) =~= all.take(done).push(Ok(item@)));
                    assert(items.deep_view() =~= before.push(item@));
                }
            },
            Err(error) => {
                proof {
                    assert forall|i: int| 0 <= i < done implies (#[trigger] all[i]) is Ok by {
                        assert(all.take(done)[i] is Ok);
                    }
                    lemma_first_err(all, done);
                }
                return Err(error);
            },
        }
    }
    assert(all.take(all.len() as int) =~= all);
    Ok(items)
}

} // verus!
