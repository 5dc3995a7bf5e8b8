//! The episode loader: from the text of a podcast's feed to its episodes, in
//! the feed's order.

use crate::catalog::{episode_views, Episode, EpisodeView, Podcast, PodcastView};
use crate::fault::Fault;
use crate::text::{append_decimal, decimal, opt_str, opt_text};
use vstd::prelude::*;
use vstd::string::StringExecFns;

verus! {

/// One item of a feed, as far as an episode is made of it.
#[derive(Debug)]
pub struct FeedItem {
    pub title: Option<String>,
    pub description: Option<String>,
    pub pub_date: Option<String>,
    pub content: Option<String>,
}

/// What a feed item holds.
pub struct FeedItemView {
    pub title: Option<Seq<char>>,
    pub description: Option<Seq<char>>,
    pub pub_date: Option<Seq<char>>,
    pub content: Option<Seq<char>>,
}

impl View for FeedItem {
    type V = FeedItemView;

    open spec fn view(&self) -> FeedItemView {
        FeedItemView {
            title: opt_text(self.title),
            description: opt_text(self.description),
            pub_date: opt_text(self.pub_date),
            content: opt_text(self.content),
        }
    }
}

/// What each item of `v` holds.
pub open spec fn item_views(v: Seq<FeedItem>) -> Seq<FeedItemView> {
    v.map_values(|i: FeedItem| i@)
}

/// The error of the `rss` crate. Nothing of it is read: a feed that the crate
/// rejects cannot be parsed, whatever the reason.
#[verifier::external_type_specification]
#[verifier::external_body]
pub struct ExRssError(rss::Error);

/// The items of the channel that the `rss` crate reads from the feed `xml`,
/// each with its title, description, publication date and content, in the
/// feed's order; `None` where the crate rejects the feed.
pub uninterp spec fn rss_items(xml: Seq<char>) -> Option<Seq<FeedItemView>>;

/// Calls `rss::Channel::from_str` and hands out the items of the channel it
/// returns. Not proved: that the call fails exactly where `rss_items` is
/// `None`, and that the items handed out are those that `rss_items` names.
#[verifier::external_body]
fn parse_items(xml: &str) -> (r: Result<Vec<FeedItem>, rss::Error>)
    ensures
        r is Ok <==> rss_items(xml@) is Some,
        r matches Ok(items) ==> rss_items(xml@) == Some(item_views(items@)),
{
    match <rss::Channel as std::str::FromStr>::from_str(xml) {
        Ok(channel) => {
            let mut items = Vec::new();
            for i in channel.items {
                items.push(FeedItem { title: i.title, description: i.description, pub_date: i.pub_date, content: i.content });
            }
            Ok(items)
        },
        Err(error) => Err(error),
    }
}

/// The episode that a feed item stands for. An item without a title gives
/// the title `Untitled Episode`; what else is missing stays missing.
pub open spec fn episode_of(item: FeedItemView) -> EpisodeView {
    EpisodeView {
        title: match item.title {
            Some(title) => title,
            None => "Untitled Episode"@,
        },
        description: item.description,
        pub_date: item.pub_date,
        content: item.content,
    }
}

/// The episodes that `items` stand for, in their order.
pub open spec fn episodes_of(items: Seq<FeedItemView>) -> Seq<EpisodeView> {
    items.map_values(|i: FeedItemView| episode_of(i))
}

/// The episodes of `podcast`, whose feed's text is `body`; `None` stands for
/// a feed that could not be fetched.
pub open spec fn feed_of(podcast: PodcastView, body: Option<Seq<char>>) -> Result<
    Seq<EpisodeView>,
    Fault,
> {
    if podcast.url is None {
        Err(Fault::MissingFeedUrl)
    } else {
        match body {
            None => Err(Fault::FetchError),
            Some(xml) => match rss_items(xml) {
                None => Err(Fault::FeedParseError),
                Some(items) => Ok(episodes_of(items)),
            },
        }
    }
}

/// One episode for each item, in the items' order. No item makes the whole
/// fail, and of no items come no episodes.
pub fn episodes_from_items(items: Vec<FeedItem>) -> (r: Vec<Episode>)
    ensures
        episode_views(r@) == episodes_of(item_views(items@)),
{
    let ghost given = items@;
    let mut episodes: Vec<Episode> = Vec::new();
    for item in it: items
        invariant
            it.seq() == given,
            episodes.len() == it.index(),
            forall|j: int|
                0 <= j < episodes.len() ==> (#[trigger] episodes[j])@ == episode_of(given[j]@),
    {
        let title = match item.title {
            Some(title) => title,
            None => String::from_str("Untitled Episode"),
        };
        episodes.push(
            Episode {
                title,
                description: item.description,
                pub_date: item.pub_date,
                content: item.content,
            },
        );
    }
    assert(episode_views(episodes@) =~= episodes_of(item_views(given)));
    episodes
}

/// What a loaded list of episodes holds.
pub open spec fn loaded_episodes(r: Result<Vec<Episode>, Fault>) -> Result<
    Seq<EpisodeView>,
    Fault,
> {
    match r {
        Ok(episodes) => Ok(episode_views(episodes@)),
        Err(fault) => Err(fault),
    }
}

/// The episode loader. `body` is the text fetched from the podcast's feed
/// address, or `None` where it could not be fetched. Of a podcast without a
/// feed address the result is `MissingFeedUrl`, whatever `body` is.
pub fn load_episodes(podcast: &Podcast, body: Option<&str>) -> (r: Result<Vec<Episode>, Fault>)
    ensures
        loaded_episodes(r) == feed_of(podcast@, opt_str(body)),
{
    if podcast.url.is_none() {
        return Err(Fault::MissingFeedUrl);
    }
    match body {
        None => Err(Fault::FetchError),
        Some(xml) => match parse_items(xml) {
            Ok(items) => Ok(episodes_from_items(items)),
            Err(_) => Err(Fault::FeedParseError),
        },
    }
}

/// The line that announces the fetch of a podcast's feed.
pub open spec fn fetching_text(name: Seq<char>) -> Seq<char> {
    "Fetching podcast feed "@ + name + "... "@
}

/// The line that tells how many episodes a podcast has.
pub open spec fn episode_count_text(name: Seq<char>, count: nat) -> Seq<char> {
    name + " has "@ + decimal(count) + " episodes"@
}

/// The line that announces the fetch of the feed of the podcast `name`.
pub fn fetching_notice(name: &str) -> (r: String)
    ensures
        r@ == fetching_text(name@),
{
    let mut out = String::from_str("Fetching podcast feed ");
    out.append(name);
    out.append("... ");
    out
}

/// The line that tells that the podcast `name` has `count` episodes.
pub fn episode_count_notice(name: &str, count: usize) -> (r: String)
    ensures
        r@ == episode_count_text(name@, count as nat),
{
    let mut out = String::from_str(name);
    out.append(" has ");
    append_decimal(&mut out, count);
    out.append(" episodes");
    out
}

} // verus!
