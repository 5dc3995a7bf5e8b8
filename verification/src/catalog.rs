//! Podcasts and their episodes, and the labels under which a list shows them.

use crate::fault::Fault;
use crate::text::opt_text;
use vstd::prelude::*;
use vstd::string::StringExecFns;

verus! {

/// The format of a feed.
#[derive(Clone, Copy, Debug, PartialEq, Eq, Structural)]
pub enum Feed {
    Rss,
    Atom,
}

/// One entry of a subscription list.
#[derive(Debug)]
pub struct Podcast {
    pub name: String,
    pub feed: Feed,
    pub url: Option<String>,
    pub description: Option<String>,
}

/// What a podcast holds.
pub struct PodcastView {
    pub name: Seq<char>,
    pub feed: Feed,
    pub url: Option<Seq<char>>,
    pub description: Option<Seq<char>>,
}

impl View for Podcast {
    type V = PodcastView;

    open spec fn view(&self) -> PodcastView {
        PodcastView {
            name: self.name@,
            feed: self.feed,
            url: opt_text(self.url),
            description: opt_text(self.description),
        }
    }
}

/// One item of a podcast's feed.
#[derive(Debug, Clone)]
pub struct Episode {
    pub title: String,
    pub description: Option<String>,
    pub pub_date: Option<String>,
    pub content: Option<String>,
}

/// What an episode holds.
pub struct EpisodeView {
    pub title: Seq<char>,
    pub description: Option<Seq<char>>,
    pub pub_date: Option<Seq<char>>,
    pub content: Option<Seq<char>>,
}

impl View for Episode {
    type V = EpisodeView;

    open spec fn view(&self) -> EpisodeView {
        EpisodeView {
            title: self.title@,
            description: opt_text(self.description),
            pub_date: opt_text(self.pub_date),
            content: opt_text(self.content),
        }
    }
}

/// What each podcast of `v` holds.
pub open spec fn podcast_views(v: Seq<Podcast>) -> Seq<PodcastView> {
    v.map_values(|p: Podcast| p@)
}

/// What each episode of `v` holds.
pub open spec fn episode_views(v: Seq<Episode>) -> Seq<EpisodeView> {
    v.map_values(|e: Episode| e@)
}

/// The label of a podcast: its name, a dash, and its feed address or `No URL`.
pub open spec fn podcast_label(p: PodcastView) -> Seq<char> {
    p.name + " - "@ + (match p.url {
        Some(url) => url,
        None => "No URL"@,
    })
}

/// The label of an episode: its title and, in brackets, its date or `No date`.
pub open spec fn episode_label(e: EpisodeView) -> Seq<char> {
    e.title + " ("@ + (match e.pub_date {
        Some(date) => date,
        None => "No date"@,
    }) + ")"@
}

/// The labels of `podcasts`, in their order.
pub open spec fn podcast_labels(podcasts: Seq<PodcastView>) -> Seq<Seq<char>> {
    podcasts.map_values(|p: PodcastView| podcast_label(p))
}

/// The labels of `episodes`, in their order.
pub open spec fn episode_labels(episodes: Seq<EpisodeView>) -> Seq<Seq<char>> {
    episodes.map_values(|e: EpisodeView| episode_label(e))
}

impl Podcast {
    /// The label under which a list shows this podcast.
    pub fn label(&self) -> (r: String)
        ensures
            r@ == podcast_label(self@),
    {
        let mut out = self.name.clone();
        out.append(" - ");
        match &self.url {
            Some(url) => out.append(url.as_str()),
            None => out.append("No URL"),
        }
        out
    }

    /// The address of this podcast's feed; `MissingFeedUrl` where it has none.
    pub fn feed_url(&self) -> (r: Result<&String, Fault>)
        ensures
            match r {
                Ok(url) => self@.url == Some(url@),
                Err(fault) => self@.url is None && fault == Fault::MissingFeedUrl,
            },
    {
        match &self.url {
            Some(url) => Ok(url),
            None => Err(Fault::MissingFeedUrl),
        }
    }
}

impl Episode {
    /// The label under which a list shows this episode.
    pub fn label(&self) -> (r: String)
        ensures
            r@ == episode_label(self@),
    {
        let mut out = self.title.clone();
        out.append(" (");
        match &self.pub_date {
            Some(date) => out.append(date.as_str()),
            None => out.append("No date"),
        }
        out.append(")");
        out
    }
}

/// The labels of `podcasts`, in their order.
pub fn labels_of_podcasts(podcasts: &Vec<Podcast>) -> (r: Vec<String>)
    ensures
        crate::text::texts(r@) == podcast_labels(podcast_views(podcasts@)),
{
    let mut out: Vec<String> = Vec::new();
    let mut i: usize = 0;
    while i < podcasts.len()
        invariant
            i <= podcasts.len(),
            out.len() == i,
            forall|j: int| 0 <= j < i ==> (#[trigger] out[j])@ == podcast_label(podcasts[j]@),
        decreases podcasts.len() - i,
    {
        out.push(podcasts[i].label());
        i += 1;
    }
    assert(crate::text::texts(out@) =~= podcast_labels(podcast_views(podcasts@)));
    out
}

/// The labels of `episodes`, in their order.
pub fn labels_of_episodes(episodes: &Vec<Episode>) -> (r: Vec<String>)
    ensures
        crate::text::texts(r@) == episode_labels(episode_views(episodes@)),
{
    let mut out: Vec<String> = Vec::new();
    let mut i: usize = 0;
    while i < episodes.len()
        invariant
            i <= episodes.len(),
            out.len() == i,
            forall|j: int| 0 <= j < i ==> (#[trigger] out[j])@ == episode_label(episodes[j]@),
        decreases episodes.len() - i,
    {
        out.push(episodes[i].label());
        i += 1;
    }
    assert(crate::text::texts(out@) =~= episode_labels(episode_views(episodes@)));
    out
}

} // verus!
