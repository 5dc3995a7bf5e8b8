//! The link extractor: the targets of the hyperlinks in an episode's show
//! notes, in the order in which the notes hold them.

use crate::catalog::Episode;
use crate::text::{byte_count, byte_len, opt_texts, texts};
use select::document::Document;
use select::predicate::Name;
use vstd::prelude::*;

verus! {

/// The longest show notes, in bytes, that are read for links: half a gibibyte.
/// The reader keeps its texts in buffers that cannot grow beyond two
/// gibibytes, and may write three bytes for one that it reads.
pub const MAX_NOTES_BYTES: usize = 0x2000_0000;

/// For each element named `element` that the `select` crate finds in the HTML
/// document `html`, in the document's order: what its attribute `attribute`
/// holds, or `None` where the element has no such attribute.
pub uninterp spec fn html_attribute_values(
    html: Seq<char>,
    element: Seq<char>,
    attribute: Seq<char>,
) -> Seq<Option<Seq<char>>>;

/// For each anchor of the HTML document `html`, in the document's order: its
/// target, the value of `href`, or `None` where the anchor has none.
pub open spec fn html_anchor_targets(html: Seq<char>) -> Seq<Option<Seq<char>>> {
    html_attribute_values(html, "a"@, "href"@)
}

/// Parses `html` with `select::document::Document::from`, walks the elements
/// named `element` that `Document::find` yields and hands out what
/// `Node::attr` returns for `attribute` on each. Not proved: that these are
/// the values that `html_attribute_values` names. Longer texts are left out:
/// the parser copies the text into a `tendril` buffer and appends to such
/// buffers as it goes, and those panic where one is to hold more than
/// `u32::MAX` bytes or to grow beyond two gibibytes.
#[verifier::external_body]
fn attribute_values(html: &str, element: &str, attribute: &str) -> (r: Vec<Option<String>>)
    requires
        byte_len(html@) <= MAX_NOTES_BYTES,
    ensures
        opt_texts(r@) == html_attribute_values(html@, element@, attribute@),
{
    let document = Document::from(html);
    let mut values = Vec::new();
    for node in document.find(Name(element)) {
        values.push(node.attr(attribute).map(String::from));
    }
    values
}

/// The targets that are there, in their order.
pub open spec fn present(targets: Seq<Option<Seq<char>>>) -> Seq<Seq<char>>
    decreases targets.len(),
{
    if targets.len() == 0 {
        Seq::empty()
    } else {
        match targets.last() {
            Some(target) => present(targets.drop_last()).push(target),
            None => present(targets.drop_last()),
        }
    }
}

/// The links in the HTML document `html`: the targets of those anchors that
/// have one, in the document's order. A document of more than
/// `MAX_NOTES_BYTES` bytes is not read and has no links.
pub open spec fn links_in(html: Seq<char>) -> Seq<Seq<char>> {
    if byte_len(html) <= MAX_NOTES_BYTES {
        present(html_anchor_targets(html))
    } else {
        Seq::empty()
    }
}

/// The links of show notes; none where there are no notes.
pub open spec fn links_of(content: Option<Seq<char>>) -> Seq<Seq<char>> {
    match content {
        Some(html) => links_in(html),
        None => Seq::empty(),
    }
}

/// The targets that are there, in their order: an anchor without a target is
/// passed over.
pub fn present_targets(targets: Vec<Option<String>>) -> (r: Vec<String>)
    ensures
        texts(r@) == present(opt_texts(targets@)),
{
    let ghost given = targets@;
    let mut links: Vec<String> = Vec::new();
    proof {
        assert(opt_texts(given.take(0)) =~= Seq::<Option<Seq<char>>>::empty());
    }
    for target in it: targets
        invariant
            it.seq() == given,
            texts(links@) == present(opt_texts(given.take(it.index() as int))),
    {
        let ghost before = opt_texts(given.take(it.index() as int));
        let ghost after = opt_texts(given.take(it.index() + 1));
        let ghost kept = links@;
        proof {
            assert(after.drop_last() =~= before);
            assert(after.last() == crate::text::opt_text(target));
        }
        match target {
            Some(link) => {
                links.push(link);
                assert(texts(links@) =~= texts(kept).push(link@));
            },
            None => {},
        }
    }
    assert(given.take(given.len() as int) =~= given);
    links
}

/// The link extractor: the targets of the anchors in `html`, in the
/// document's order, those anchors passed over that have no target. A text of
/// more than `MAX_NOTES_BYTES` bytes is not read: it yields no links.
pub fn extract_links(html: &str) -> (r: Vec<String>)
    ensures
        texts(r@) == links_in(html@),
        byte_len(html@) <= MAX_NOTES_BYTES ==> texts(r@) == present(html_anchor_targets(html@)),
        byte_len(html@) > MAX_NOTES_BYTES ==> r.len() == 0,
{
    if byte_count(html) > MAX_NOTES_BYTES {
        let none: Vec<String> = Vec::new();
        assert(texts(none@) =~= Seq::<Seq<char>>::empty());
        return none;
    }
    present_targets(attribute_values(html, "a", "href"))
}

/// The links of an episode's show notes; none where the episode has no notes.
pub fn episode_links(episode: &Episode) -> (r: Vec<String>)
    ensures
        texts(r@) == links_of(episode@.content),
        episode@.content is None ==> r.len() == 0,
{
    match &episode.content {
        Some(html) => extract_links(html.as_str()),
        None => {
            let none: Vec<String> = Vec::new();
            assert(texts(none@) =~= Seq::<Seq<char>>::empty());
            none
        },
    }
}

/// Passing over missing targets never invents one: there are at most as many
/// links as anchors, and as many where no target is missing.
pub proof fn lemma_present_bounds(targets: Seq<Option<Seq<char>>>)
    ensures
        present(targets).len() <= targets.len(),
        (forall|i: int| 0 <= i < targets.len() ==> (#[trigger] targets[i]) is Some) ==> present(
            targets,
        ) == targets.map_values(|t: Option<Seq<char>>| t->0),
    decreases targets.len(),
{
    if targets.len() > 0 {
        lemma_present_bounds(targets.drop_last());
        if forall|i: int| 0 <= i < targets.len() ==> (#[trigger] targets[i]) is Some {
            assert forall|i: int| 0 <= i < targets.drop_last().len() implies (
            #[trigger] targets.drop_last()[i]) is Some by {
                assert(targets.drop_last()[i] == targets[i]);
            }
            assert(present(targets) =~= targets.map_values(|t: Option<Seq<char>>| t->0));
        }
    } else {
        assert(present(targets) =~= targets.map_values(|t: Option<Seq<char>>| t->0));
    }
}

} // verus!
