//! The feed source loader: from the text of a subscription document to the
//! list of podcasts, in the document's order.

use crate::catalog::{podcast_views, Feed, Podcast, PodcastView};
use crate::fault::Fault;
use crate::text::{
    append_decimal, byte_count, byte_len, chars_of, decimal, opt_str, opt_text,
};
use vstd::prelude::*;
use vstd::string::StringExecFns;

verus! {

/// The subscription list that is read where none is named.
pub const DEFAULT_SOURCE: &'static str =
    "https://raw.githubusercontent.com/frogshead/shownote/main/src/fav-podcasts.opml";

/// The longest subscription document, in bytes, that is read: the reader
/// counts lines and columns in 32 bits when it rejects a document.
pub const MAX_SUBSCRIPTION_BYTES: usize = 0xFFFF_FFFE;

/// Where a subscription list lies.
#[derive(Clone, Copy, Debug, PartialEq, Eq, Structural)]
pub enum SourceKind {
    /// On the web: the source is an address to fetch.
    Remote,
    /// On this machine: the source is the path of a file.
    Local,
}

/// A source that begins with `http://` or `https://` is an address; any other
/// is a path.
pub open spec fn kind_of(source: Seq<char>) -> SourceKind {
    if "http://"@.is_prefix_of(source) || "https://"@.is_prefix_of(source) {
        SourceKind::Remote
    } else {
        SourceKind::Local
    }
}

/// Whether `text` begins with `prefix`.
fn begins_with(text: &Vec<char>, prefix: &str) -> (r: bool)
    ensures
        r == prefix@.is_prefix_of(text@),
{
    let head = chars_of(prefix);
    if head.len() > text.len() {
        return false;
    }
    let mut i: usize = 0;
    while i < head.len()
        invariant
            i <= head.len() <= text.len(),
            head@ == prefix@,
            forall|j: int| 0 <= j < i ==> head@[j] == text@[j],
        decreases head.len() - i,
    {
        if head[i] != text[i] {
            assert(text@.subrange(0, head.len() as int)[i as int] != head@[i as int]);
            return false;
        }
        i += 1;
    }
    assert(head@ =~= text@.subrange(0, head.len() as int));
    true
}

/// Where the subscription list named by `source` lies.
pub fn source_kind(source: &str) -> (r: SourceKind)
    ensures
        r == kind_of(source@),
{
    let text = chars_of(source);
    if begins_with(&text, "http://") || begins_with(&text, "https://") {
        SourceKind::Remote
    } else {
        SourceKind::Local
    }
}

/// One outline of a subscription document, as far as a podcast is made of it.
#[derive(Debug)]
pub struct Outline {
    pub text: String,
    pub xml_url: Option<String>,
    pub description: Option<String>,
}

/// What an outline holds.
pub struct OutlineView {
    pub text: Seq<char>,
    pub xml_url: Option<Seq<char>>,
    pub description: Option<Seq<char>>,
}

impl View for Outline {
    type V = OutlineView;

    open spec fn view(&self) -> OutlineView {
        OutlineView {
            text: self.text@,
            xml_url: opt_text(self.xml_url),
            description: opt_text(self.description),
        }
    }
}

/// What each outline of `v` holds.
pub open spec fn outline_views(v: Seq<Outline>) -> Seq<OutlineView> {
    v.map_values(|o: Outline| o@)
}

/// The error of the `opml` crate. Nothing of it is read: a document that the
/// crate rejects is malformed, whatever the reason.
#[verifier::external_type_specification]
#[verifier::external_body]
pub struct ExOpmlError(opml::Error);

/// The top-level outlines that the `opml` crate reads from the document `xml`,
/// each with its attributes `text`, `xmlUrl` and `description`, in the
/// document's order; `None` where the crate rejects the document.
pub uninterp spec fn opml_outlines(xml: Seq<char>) -> Option<Seq<OutlineView>>;

/// Calls `opml::OPML::from_str` and hands out the top-level outlines of the
/// document it returns. Not proved: that the call fails exactly where
/// `opml_outlines` is `None`, and that the outlines handed out are those that
/// `opml_outlines` names. Longer texts are left out: for the position of a
/// fault the crate's tokenizer, `xmlparser`, counts the line breaks before it
/// and the characters of its line in `u32`, from one, and a build that traps
/// overflow panics where either count reaches `u32::MAX`.
#[verifier::external_body]
fn parse_outlines(xml: &str) -> (r: Result<Vec<Outline>, opml::Error>)
    requires
        byte_len(xml@) <= MAX_SUBSCRIPTION_BYTES,
    ensures
        r is Ok <==> opml_outlines(xml@) is Some,
        r matches Ok(outlines) ==> opml_outlines(xml@) == Some(outline_views(outlines@)),
{
    match opml::OPML::from_str(xml) {
        Ok(document) => {
            let mut outlines = Vec::new();
            for o in document.body.outlines {
                outlines.push(Outline { text: o.text, xml_url: o.xml_url, description: o.description });
            }
            Ok(outlines)
        },
        Err(error) => Err(error),
    }
}

/// The podcast that an outline stands for: the outline's text is its name, the
/// address in `xmlUrl` its feed address, and its feed counts as RSS.
pub open spec fn podcast_of(outline: OutlineView) -> PodcastView {
    PodcastView {
        name: outline.text,
        feed: Feed::Rss,
        url: outline.xml_url,
        description: outline.description,
    }
}

/// The podcasts that `outlines` stand for, in their order.
pub open spec fn podcasts_of(outlines: Seq<OutlineView>) -> Seq<PodcastView> {
    outlines.map_values(|o: OutlineView| podcast_of(o))
}

/// The podcasts of the subscription document `content`; `None` stands for a
/// source that could not be read. A document of more than
/// `MAX_SUBSCRIPTION_BYTES` bytes is not read and counts as malformed.
pub open spec fn subscription_of(content: Option<Seq<char>>) -> Result<Seq<PodcastView>, Fault> {
    match content {
        None => Err(Fault::SourceUnreachable),
        Some(xml) => if byte_len(xml) > MAX_SUBSCRIPTION_BYTES {
            Err(Fault::MalformedSubscription)
        } else {
            match opml_outlines(xml) {
                None => Err(Fault::MalformedSubscription),
                Some(outlines) => Ok(podcasts_of(outlines)),
            }
        },
    }
}

/// One podcast for each outline, in the outlines' order. An outline without a
/// feed address gives a podcast without one.
pub fn podcasts_from_outlines(outlines: Vec<Outline>) -> (r: Vec<Podcast>)
    ensures
        podcast_views(r@) == podcasts_of(outline_views(outlines@)),
{
    let ghost given = outlines@;
    let mut podcasts: Vec<Podcast> = Vec::new();
    for outline in it: outlines
        invariant
            it.seq() == given,
            podcasts.len() == it.index(),
            forall|j: int|
                0 <= j < podcasts.len() ==> (#[trigger] podcasts[j])@ == podcast_of(given[j]@),
    {
        podcasts.push(
            Podcast {
                name: outline.text,
                feed: Feed::Rss,
                url: outline.xml_url,
                description: outline.description,
            },
        );
    }
    assert(podcast_views(podcasts@) =~= podcasts_of(outline_views(given)));
    podcasts
}

/// What a loaded list of podcasts holds.
pub open spec fn loaded_podcasts(r: Result<Vec<Podcast>, Fault>) -> Result<
    Seq<PodcastView>,
    Fault,
> {
    match r {
        Ok(podcasts) => Ok(podcast_views(podcasts@)),
        Err(fault) => Err(fault),
    }
}

/// The feed source loader. `content` is the text read from the source, or
/// `None` where the source could not be read. A text of more than
/// `MAX_SUBSCRIPTION_BYTES` bytes is not read: it counts as malformed.
pub fn load_podcasts(content: Option<&str>) -> (r: Result<Vec<Podcast>, Fault>)
    ensures
        loaded_podcasts(r) == subscription_of(opt_str(content)),
{
    match content {
        None => Err(Fault::SourceUnreachable),
        Some(xml) => {
            if byte_count(xml) > MAX_SUBSCRIPTION_BYTES {
                return Err(Fault::MalformedSubscription);
            }
            match parse_outlines(xml) {
                Ok(outlines) => Ok(podcasts_from_outlines(outlines)),
                Err(_) => Err(Fault::MalformedSubscription),
            }
        },
    }
}

/// The line that tells how many podcasts were loaded.
pub open spec fn podcast_count_text(count: nat) -> Seq<char> {
    "Total number of podcasts: "@ + decimal(count)
}

/// The line that tells how many podcasts were loaded.
pub fn podcast_count_notice(count: usize) -> (r: String)
    ensures
        r@ == podcast_count_text(count as nat),
{
    let mut out = String::from_str("Total number of podcasts: ");
    append_decimal(&mut out, count);
    out
}

} // verus!
