//! What holds of every selection, whatever the user and the terminal do.

use crate::selector::{
    choice_of, lemma_after_keeps_wf, next_index, previous_index, Action, Choice, Event, ListView,
    SelectorView,
};
use crate::catalog::{episode_label, podcast_label, EpisodeView, PodcastView};
use crate::fault::Fault;
use crate::feed::feed_of;
use crate::links::links_of;
use crate::session::{
    episodes_failure_text, exiting_text, no_content_text, open_failure_text, opening_text, Report,
    SessionView, StageView, StepView,
};
use crate::text::{decimal, lemma_decimal_reads_back, trim_end, trim_start, trimmed};
use vstd::prelude::*;

verus! {

proof fn lemma_nexts_reach(list: ListView, count: nat)
    requires
        list.wf(),
        list.selected is Some,
        count <= list.labels.len(),
    ensures
        list.after_nexts(count).labels == list.labels,
        list.after_nexts(count).selected == Some(
            if list.selected->0 + count < list.labels.len() {
                list.selected->0 + count
            } else {
                (list.selected->0 + count - list.labels.len()) as nat
            },
        ),
    decreases count,
{
    if count > 0 {
        let before = list.after_nexts((count - 1) as nat);
        lemma_nexts_reach(list, (count - 1) as nat);
        let len = list.labels.len();
        let at = before.selected->0;
        assert(next_index(at, len) == (if at + 1 == len {
            0
        } else {
            at + 1
        })) by (nonlinear_arith)
            requires
                0 <= at < len,
        ;
    }
}

proof fn lemma_previouses_reach(list: ListView, count: nat)
    requires
        list.wf(),
        list.selected is Some,
        count <= list.labels.len(),
    ensures
        list.after_previouses(count).labels == list.labels,
        list.after_previouses(count).selected == Some(
            if list.selected->0 >= count {
                (list.selected->0 - count) as nat
            } else {
                (list.selected->0 + list.labels.len() - count) as nat
            },
        ),
    decreases count,
{
    if count > 0 {
        let before = list.after_previouses((count - 1) as nat);
        lemma_previouses_reach(list, (count - 1) as nat);
        let len = list.labels.len();
        let at = before.selected->0;
        assert(previous_index(at, len) == (if at == 0 {
            len - 1
        } else {
            at - 1
        })) by (nonlinear_arith)
            requires
                0 <= at < len,
        ;
    }
}

/// Moving forward as many times as the list has items leads back to the item
/// that the highlight started from.
pub proof fn lemma_next_cycle(list: ListView)
    requires
        list.wf(),
    ensures
        list.after_nexts(list.labels.len()) == list,
{
    if list.selected is Some {
        lemma_nexts_reach(list, list.labels.len());
    }
}

/// Moving back as many times as the list has items leads back to the item
/// that the highlight started from.
pub proof fn lemma_previous_cycle(list: ListView)
    requires
        list.wf(),
    ensures
        list.after_previouses(list.labels.len()) == list,
{
    if list.selected is Some {
        lemma_previouses_reach(list, list.labels.len());
    }
}

/// In a list of one item neither move changes anything.
pub proof fn lemma_single_item_stays(list: ListView)
    requires
        list.wf(),
        list.labels.len() == 1,
    ensures
        list.after_next() == list,
        list.after_previous() == list,
{
    lemma_nexts_reach(list, 1);
    lemma_previouses_reach(list, 1);
    assert(list.after_nexts(1) == list.after_nexts(0).after_next());
    assert(list.after_previouses(1) == list.after_previouses(0).after_previous());
}

/// In a list of no items neither move changes anything, and nothing is highlighted.
pub proof fn lemma_empty_list_stays(list: ListView)
    requires
        list.wf(),
        list.labels.len() == 0,
    ensures
        list.selected is None,
        list.after_next() == list,
        list.after_previous() == list,
{
}

/// A selection over no items has ended from the start, cancelled: whatever
/// is reported, nothing is ever asked of the terminal or of the user.
pub proof fn lemma_empty_selection_is_cancelled(start: SelectorView, events: Seq<Event>)
    requires
        start.wf(),
        start.list.labels.len() == 0,
    ensures
        start.after_all(events) == start,
        start.after_all(events).pending() == Action::Finish(Choice::Cancelled),
    decreases events.len(),
{
    if events.len() > 0 {
        lemma_empty_selection_is_cancelled(start, events.drop_last());
    }
}

/// Every run keeps the selector well formed, so a choice it ends with is an
/// item of the list; and the labels stay as they are.
pub proof fn lemma_run_keeps_wf(start: SelectorView, events: Seq<Event>)
    requires
        start.wf(),
    ensures
        start.after_all(events).wf(),
        start.after_all(events).list.labels == start.list.labels,
        start.after_all(events).pending() matches Action::Finish(Choice::Selected(i)) ==> i
            < start.list.labels.len(),
    decreases events.len(),
{
    if events.len() > 0 {
        lemma_run_keeps_wf(start, events.drop_last());
        lemma_after_keeps_wf(start.after_all(events.drop_last()), events.last());
    }
}

/// Whatever is reported, in whatever order: the terminal may be captured only
/// while the selector asks to draw, to read or to release. When it asks for a
/// line at the prompt, and when it has ended, the terminal has been released.
pub proof fn lemma_released_before_end(start: SelectorView, events: Seq<Event>)
    requires
        start.wf(),
        start.phase == SelectorView::first_phase(start.list.labels.len()),
    ensures
        start.captured_after(events) <==> (start.after_all(events).phase is Drawing
            || start.after_all(events).phase is Reading || start.after_all(events).phase
            is Releasing),
        start.after_all(events).pending() is Prompt ==> !start.captured_after(events),
        start.after_all(events).pending() is Finish ==> !start.captured_after(events),
    decreases events.len(),
{
    if events.len() > 0 {
        lemma_released_before_end(start, events.drop_last());
    }
}

/// When capturing, drawing or reading fails, the selector asks for the
/// terminal to be released and then for a line at the prompt, and whatever
/// comes of the prompt ends the selection with a choice that is an item of the list.
pub proof fn lemma_failure_falls_back(s: SelectorView, released: Event, answer: Event)
    requires
        s.wf(),
        s.phase is Acquiring || s.phase is Drawing || s.phase is Reading,
    ensures
        s.after(Event::Failed).pending() == Action::Release,
        s.after(Event::Failed).after(released).pending() == Action::Prompt,
        s.after(Event::Failed).after(released).after(answer).pending() is Finish,
        s.after(Event::Failed).after(released).after(answer).pending() matches Action::Finish(
            Choice::Selected(i),
        ) ==> i < s.list.labels.len(),
        answer matches Event::Line(line) ==> s.after(Event::Failed).after(released).after(
            answer,
        ).pending() == Action::Finish(choice_of(line@, s.list.labels.len())),
{
    let a = s.after(Event::Failed);
    lemma_after_keeps_wf(s, Event::Failed);
    let b = a.after(released);
    lemma_after_keeps_wf(a, released);
    lemma_after_keeps_wf(b, answer);
}

/// Typing the index that the prompt shows for an item chooses that item.
pub proof fn lemma_shown_index_chooses(index: nat, len: nat)
    requires
        index < len <= usize::MAX,
    ensures
        choice_of(decimal(index), len) == Choice::Selected(index as usize),
{
    lemma_decimal_reads_back(index);
    let s = decimal(index);
    lemma_digits_have_no_space(s);
    assert(trim_start(s) == s);
    assert(trim_end(s) == s);
    assert(trimmed(s) == s);
    assert(s.first() != 'q');
}

proof fn lemma_digits_have_no_space(s: Seq<char>)
    requires
        s.len() > 0,
        crate::text::all_digits(s),
    ensures
        !crate::text::is_space(s.first()),
        !crate::text::is_space(s.last()),
        s.first() != 'q',
{
    assert(crate::text::digit_of(s[0]) is Some);
    assert(crate::text::digit_of(s[s.len() - 1]) is Some);
}

/// A podcast without a feed address has no episodes to load, whatever was
/// fetched: the loader reports that the address is missing. Chosen in a
/// session, it ends the run with that report, and nothing is fetched.
pub proof fn lemma_missing_url_is_reported(
    podcasts: Seq<PodcastView>,
    index: usize,
    body: Option<Seq<char>>,
    notices: Seq<Seq<char>>,
)
    requires
        index < podcasts.len(),
        podcasts[index as int].url is None,
    ensures
        feed_of(podcasts[index as int], body) == Err::<Seq<EpisodeView>, Fault>(
            Fault::MissingFeedUrl,
        ),
        SessionView::with_podcast(podcasts, Choice::Selected(index), notices)
            == SessionView::finished(
            notices.push(episodes_failure_text(Fault::MissingFeedUrl)),
        ),
        SessionView::with_podcast(podcasts, Choice::Selected(index), notices).pending()
            == StepView::Exit,
{
}

/// Leaving a selection without a choice ends the run with a line that says
/// so, and nothing is fetched or opened.
pub proof fn lemma_cancel_ends_the_run(
    podcasts: Seq<PodcastView>,
    episodes: Seq<EpisodeView>,
    notices: Seq<Seq<char>>,
)
    ensures
        SessionView::with_podcast(podcasts, Choice::Cancelled, notices) == SessionView::finished(
            notices.push(exiting_text()),
        ),
        SessionView::with_episode(episodes, Choice::Cancelled, notices) == SessionView::finished(
            notices.push(exiting_text()),
        ),
{
}

/// An episode without show notes ends the run with the line that says so. An
/// episode with show notes never gets that line: where its notes hold no
/// link the run ends after the line that announces the links, and where they
/// hold one, the first link is opened.
pub proof fn lemma_no_content_is_said(
    episodes: Seq<EpisodeView>,
    index: usize,
    notices: Seq<Seq<char>>,
)
    requires
        index < episodes.len(),
    ensures
        ({
            let episode = episodes[index as int];
            let next = SessionView::with_episode(episodes, Choice::Selected(index), notices);
            let said = notices.push(opening_text(episode.title));
            &&& episode.content is None ==> links_of(episode.content).len() == 0 && next
                == SessionView::finished(said.push(no_content_text()))
            &&& episode.content is Some && links_of(episode.content).len() == 0 ==> next
                == SessionView::finished(said)
            &&& episode.content is Some && links_of(episode.content).len() > 0 ==> next.notices
                == said && next.pending() == StepView::Open(links_of(episode.content)[0])
        }),
{
}

/// Whether a link could be opened or not, the next link is opened after it,
/// and the run is over after the last. A link that could not be opened is
/// warned of by name; one that could is passed over in silence.
pub proof fn lemma_failure_opens_next(s: SessionView, report: Report)
    requires
        s.wf(),
        s.stage is Opening,
    ensures
        ({
            let links = s.stage->Opening_0;
            let at = s.stage->Opening_1;
            let next = s.after(report);
            &&& next.wf()
            &&& at + 1 < links.len() ==> next.stage == StageView::Opening(links, (at + 1) as nat)
                && next.pending() == StepView::Open(links[(at + 1) as int])
            &&& at + 1 == links.len() ==> next.stage == StageView::Finished && next.pending()
                == StepView::Exit
            &&& next.notices == (if report matches Report::Opened(true) {
                Seq::<Seq<char>>::empty()
            } else {
                seq![open_failure_text(links[at as int])]
            })
        }),
{
}

/// Whatever the reports on the links say, every link is tried: after as many
/// reports as links remain the run is over, and before that the link to open
/// is the one that as many reports have led to.
pub proof fn lemma_every_link_is_tried(s: SessionView, reports: Seq<Report>)
    requires
        s.wf(),
        s.stage is Opening,
    ensures
        ({
            let links = s.stage->Opening_0;
            let at = s.stage->Opening_1;
            let end = s.after_all(reports);
            &&& at + reports.len() < links.len() ==> end.stage == StageView::Opening(
                links,
                (at + reports.len()) as nat,
            ) && end.pending() == StepView::Open(links[(at + reports.len()) as int])
            &&& at + reports.len() >= links.len() ==> end.stage == StageView::Finished
                && end.pending() == StepView::Exit
        }),
    decreases reports.len(),
{
    if reports.len() > 0 {
        lemma_every_link_is_tried(s, reports.drop_last());
        let before = s.after_all(reports.drop_last());
        if before.stage is Opening {
            lemma_failure_opens_next(before, reports.last());
        }
    }
}

/// A run that is over stays over, and asks for nothing more.
pub proof fn lemma_finished_stays(s: SessionView, reports: Seq<Report>)
    requires
        s.stage is Finished,
    ensures
        s.after_all(reports).stage is Finished,
        s.after_all(reports).pending() == StepView::Exit,
    decreases reports.len(),
{
    if reports.len() > 0 {
        lemma_finished_stays(s, reports.drop_last());
    }
}

/// While a selection is under way its list shows the items in their own
/// order: one label for each item, the label of the item at the same index.
pub proof fn lemma_labels_follow_items(s: SessionView)
    requires
        s.wf(),
    ensures
        s.stage matches StageView::ChoosingPodcast(podcasts, selector) ==> selector.list.labels.len()
            == podcasts.len() && forall|i: int|
            0 <= i < podcasts.len() ==> #[trigger] selector.list.labels[i] == podcast_label(
                podcasts[i],
            ),
        s.stage matches StageView::ChoosingEpisode(episodes, selector) ==> selector.list.labels.len()
            == episodes.len() && forall|i: int|
            0 <= i < episodes.len() ==> #[trigger] selector.list.labels[i] == episode_label(
                episodes[i],
            ),
{
}

/// The end of a selection is never handed out as a step: a session whose
/// selection has ended has moved on.
pub proof fn lemma_selection_end_is_taken(s: SessionView)
    requires
        s.wf(),
    ensures
        !(s.pending() matches StepView::Terminal(Action::Finish(_))),
{
}

/// Whether a selector is in a phase in which the terminal is captured.
spec fn holds_terminal(selector: SelectorView) -> bool {
    selector.phase is Drawing || selector.phase is Reading || selector.phase is Releasing
}

/// What ties the terminal to the stage of a session, all along a run.
spec fn terminal_follows_stage(s: SessionView, captured: bool) -> bool {
    match s.stage {
        StageView::ChoosingPodcast(_, selector) => !(selector.phase is Done) && (captured
            <==> holds_terminal(selector)),
        StageView::ChoosingEpisode(_, selector) => !(selector.phase is Done) && (captured
            <==> holds_terminal(selector)),
        _ => !captured,
    }
}

proof fn lemma_terminal_follows_run(source: Seq<char>, reports: Seq<Report>)
    ensures
        terminal_follows_stage(
            SessionView::start(source).after_all(reports),
            SessionView::start(source).captured_after(reports),
        ),
    decreases reports.len(),
{
    if reports.len() > 0 {
        lemma_terminal_follows_run(source, reports.drop_last());
    }
}

/// From the start of a run, whatever is reported: when the session asks to
/// read the list, to fetch a feed, to open a link or for a line at the
/// prompt, and when the run is over, the terminal has been released.
pub proof fn lemma_terminal_free_outside_selection(source: Seq<char>, reports: Seq<Report>)
    ensures
        ({
            let start = SessionView::start(source);
            let step = start.after_all(reports).pending();
            (step is Read || step is Fetch || step is Open || step is Exit || step
                == StepView::Terminal(Action::Prompt)) ==> !start.captured_after(reports)
        }),
{
    lemma_terminal_follows_run(source, reports);
}

} // verus!
