//! The orchestrator: one run from the subscription list to the open links.
//!
//! A session decides and does nothing itself. It names the step to take next
//! and the lines to print before it; the caller takes the step and reports
//! what came of it.

use crate::catalog::{
    episode_labels, episode_views, labels_of_episodes, labels_of_podcasts, podcast_labels,
    podcast_views, Episode, EpisodeView, Podcast, PodcastView,
};
use crate::fault::{fault_text, Fault};
use crate::feed::{
    episode_count_notice, episode_count_text, feed_of, fetching_notice, fetching_text,
    load_episodes,
};
use crate::links::{episode_links, links_of};
use crate::selector::{Action, Choice, Event, Selector, SelectorView};
use crate::subscription::{
    kind_of, load_podcasts, podcast_count_notice, podcast_count_text, source_kind,
    subscription_of, SourceKind,
};
use crate::text::texts;
use vstd::prelude::*;
use vstd::string::StringExecFns;

verus! {

/// What came of the last step.
#[derive(Debug, PartialEq, Eq)]
pub enum Report {
    /// The text of the subscription list, or `None` where it could not be read.
    Source(Option<String>),
    /// What came of an action on the terminal.
    Terminal(Event),
    /// The text of the feed, or `None` where it could not be fetched.
    Feed(Option<String>),
    /// Whether the link was opened.
    Opened(bool),
}

/// What the caller is to do next.
#[derive(Debug, PartialEq, Eq)]
pub enum Step {
    /// Read the subscription list from this source, by fetching it or from a file.
    Read(SourceKind, String),
    /// Carry out this action of the selection that is under way.
    Terminal(Action),
    /// Fetch the feed at this address.
    Fetch(String),
    /// Open this link.
    Open(String),
    /// Nothing more: the run is over.
    Exit,
}

/// What a step holds.
pub enum StepView {
    Read(SourceKind, Seq<char>),
    Terminal(Action),
    Fetch(Seq<char>),
    Open(Seq<char>),
    Exit,
}

impl View for Step {
    type V = StepView;

    open spec fn view(&self) -> StepView {
        match self {
            Step::Read(kind, source) => StepView::Read(*kind, source@),
            Step::Terminal(action) => StepView::Terminal(*action),
            Step::Fetch(url) => StepView::Fetch(url@),
            Step::Open(link) => StepView::Open(link@),
            Step::Exit => StepView::Exit,
        }
    }
}

/// How far a run has come.
enum Stage {
    /// The subscription list at this source is being read.
    Reading(String),
    /// One of these podcasts is being chosen.
    ChoosingPodcast(Vec<Podcast>, Selector),
    /// The feed of this podcast is being fetched.
    Fetching(Podcast),
    /// One of these episodes is being chosen.
    ChoosingEpisode(Vec<Episode>, Selector),
    /// Of these links, the one at this index is being opened.
    Opening(Vec<String>, usize),
    /// The run is over.
    Finished,
}

/// What a stage holds.
pub enum StageView {
    Reading(Seq<char>),
    ChoosingPodcast(Seq<PodcastView>, SelectorView),
    Fetching(PodcastView),
    ChoosingEpisode(Seq<EpisodeView>, SelectorView),
    Opening(Seq<Seq<char>>, nat),
    Finished,
}

impl View for Stage {
    type V = StageView;

    closed spec fn view(&self) -> StageView {
        match self {
            Stage::Reading(source) => StageView::Reading(source@),
            Stage::ChoosingPodcast(podcasts, selector) => StageView::ChoosingPodcast(
                podcast_views(podcasts@),
                selector@,
            ),
            Stage::Fetching(podcast) => StageView::Fetching(podcast@),
            Stage::ChoosingEpisode(episodes, selector) => StageView::ChoosingEpisode(
                episode_views(episodes@),
                selector@,
            ),
            Stage::Opening(links, at) => StageView::Opening(texts(links@), *at as nat),
            Stage::Finished => StageView::Finished,
        }
    }
}

/// The line that tells that the run ends with no link opened.
pub open spec fn exiting_text() -> Seq<char> {
    "Exiting without opening any links."@
}

/// The line that tells that an episode has no show notes.
pub open spec fn no_content_text() -> Seq<char> {
    "No content available for this episode"@
}

/// The line that tells why the episodes could not be loaded.
pub open spec fn episodes_failure_text(fault: Fault) -> Seq<char> {
    "Error fetching episodes: "@ + fault_text(fault)
}

/// The line that announces the links of an episode.
pub open spec fn opening_text(title: Seq<char>) -> Seq<char> {
    "Opening links for episode: "@ + title
}

/// The line that warns of a link that could not be opened.
pub open spec fn open_failure_text(link: Seq<char>) -> Seq<char> {
    fault_text(Fault::LinkOpenFailed) + ": "@ + link
}

/// The selector over `podcasts`.
pub open spec fn podcast_selector(podcasts: Seq<PodcastView>) -> SelectorView {
    SelectorView::fresh(
        "Select a Podcast"@,
        "Enter the number of the podcast you want to select (or 'q' to quit):"@,
        podcast_labels(podcasts),
    )
}

/// The selector over `episodes`.
pub open spec fn episode_selector(episodes: Seq<EpisodeView>) -> SelectorView {
    SelectorView::fresh(
        "Select an Episode (Latest First)"@,
        "Enter the number of the episode you want to select (or 'q' to quit):"@,
        episode_labels(episodes),
    )
}

/// The text that a report brings: what was read or fetched.
pub open spec fn text_of(report: Report) -> Option<Seq<char>> {
    match report {
        Report::Source(Some(text)) => Some(text@),
        Report::Feed(Some(text)) => Some(text@),
        _ => None,
    }
}

/// The event that a report brings to the selection under way: its own, or a
/// failure where the report is of another kind.
pub open spec fn event_of(report: Report) -> Event {
    match report {
        Report::Terminal(event) => event,
        _ => Event::Failed,
    }
}

/// A session: how far it has come, and the lines to print before its next step.
pub struct SessionView {
    pub stage: StageView,
    pub notices: Seq<Seq<char>>,
}

impl SessionView {
    /// A selection under way has a well-formed selector over the labels of
    /// its items and has not ended; a feed is fetched only of a podcast with
    /// a feed address; the link that is opened is one of the links.
    pub open spec fn wf(self) -> bool {
        match self.stage {
            StageView::Reading(_) => true,
            StageView::ChoosingPodcast(podcasts, selector) => {
                &&& selector.wf()
                &&& selector.list.labels == podcast_labels(podcasts)
                &&& !(selector.phase is Done)
            },
            StageView::Fetching(podcast) => podcast.url is Some,
            StageView::ChoosingEpisode(episodes, selector) => {
                &&& selector.wf()
                &&& selector.list.labels == episode_labels(episodes)
                &&& !(selector.phase is Done)
            },
            StageView::Opening(links, at) => at < links.len(),
            StageView::Finished => true,
        }
    }

    /// The session that a run on `source` starts with.
    pub open spec fn start(source: Seq<char>) -> SessionView {
        SessionView { stage: StageView::Reading(source), notices: Seq::empty() }
    }

    /// The run is over, with these lines to print.
    pub open spec fn finished(notices: Seq<Seq<char>>) -> SessionView {
        SessionView { stage: StageView::Finished, notices }
    }

    /// The step that the session waits for.
    pub open spec fn pending(self) -> StepView {
        match self.stage {
            StageView::Reading(source) => StepView::Read(kind_of(source), source),
            StageView::ChoosingPodcast(_, selector) => StepView::Terminal(selector.pending()),
            StageView::Fetching(podcast) => StepView::Fetch(
                match podcast.url {
                    Some(url) => url,
                    None => Seq::empty(),
                },
            ),
            StageView::ChoosingEpisode(_, selector) => StepView::Terminal(selector.pending()),
            StageView::Opening(links, at) => StepView::Open(links[at as int]),
            StageView::Finished => StepView::Exit,
        }
    }

    /// The session once the subscription list has been read, or has not.
    pub open spec fn with_source(content: Option<Seq<char>>) -> SessionView {
        match subscription_of(content) {
            Ok(podcasts) => Self::choosing_podcast(
                podcasts,
                podcast_selector(podcasts),
                seq![podcast_count_text(podcasts.len())],
            ),
            Err(fault) => Self::finished(seq![fault_text(fault)]),
        }
    }

    /// The session while a podcast is chosen, and once one has been.
    pub open spec fn choosing_podcast(
        podcasts: Seq<PodcastView>,
        selector: SelectorView,
        notices: Seq<Seq<char>>,
    ) -> SessionView {
        match selector.pending() {
            Action::Finish(choice) => Self::with_podcast(podcasts, choice, notices),
            _ => SessionView { stage: StageView::ChoosingPodcast(podcasts, selector), notices },
        }
    }

    /// The session once the choice among `podcasts` is made. A podcast
    /// without a feed address ends the run; nothing is fetched for it.
    pub open spec fn with_podcast(
        podcasts: Seq<PodcastView>,
        choice: Choice,
        notices: Seq<Seq<char>>,
    ) -> SessionView {
        match choice {
            Choice::Selected(index) => if index < podcasts.len() {
                let podcast = podcasts[index as int];
                if podcast.url is Some {
                    SessionView {
                        stage: StageView::Fetching(podcast),
                        notices: notices.push(fetching_text(podcast.name)),
                    }
                } else {
                    Self::finished(notices.push(episodes_failure_text(Fault::MissingFeedUrl)))
                }
            } else {
                Self::finished(notices.push(exiting_text()))
            },
            Choice::Cancelled => Self::finished(notices.push(exiting_text())),
        }
    }

    /// The session once the feed of `podcast` has been fetched, or has not.
    pub open spec fn with_feed(podcast: PodcastView, body: Option<Seq<char>>) -> SessionView {
        match feed_of(podcast, body) {
            Ok(episodes) => Self::choosing_episode(
                episodes,
                episode_selector(episodes),
                seq![episode_count_text(podcast.name, episodes.len())],
            ),
            Err(fault) => Self::finished(seq![episodes_failure_text(fault)]),
        }
    }

    /// The session while an episode is chosen, and once one has been.
    pub open spec fn choosing_episode(
        episodes: Seq<EpisodeView>,
        selector: SelectorView,
        notices: Seq<Seq<char>>,
    ) -> SessionView {
        match selector.pending() {
            Action::Finish(choice) => Self::with_episode(episodes, choice, notices),
            _ => SessionView { stage: StageView::ChoosingEpisode(episodes, selector), notices },
        }
    }

    /// The session once the choice among `episodes` is made. An episode
    /// without show notes ends the run with a line that says so; one whose
    /// notes hold no link ends it without.
    pub open spec fn with_episode(
        episodes: Seq<EpisodeView>,
        choice: Choice,
        notices: Seq<Seq<char>>,
    ) -> SessionView {
        match choice {
            Choice::Selected(index) => if index < episodes.len() {
                let episode = episodes[index as int];
                let said = notices.push(opening_text(episode.title));
                if episode.content is Some {
                    Self::opening(links_of(episode.content), 0, said)
                } else {
                    Self::finished(said.push(no_content_text()))
                }
            } else {
                Self::finished(notices.push(exiting_text()))
            },
            Choice::Cancelled => Self::finished(notices.push(exiting_text())),
        }
    }

    /// The session that opens the link at `at`, or is over where there is none.
    pub open spec fn opening(links: Seq<Seq<char>>, at: nat, notices: Seq<Seq<char>>) -> SessionView {
        if at < links.len() {
            SessionView { stage: StageView::Opening(links, at), notices }
        } else {
            Self::finished(notices)
        }
    }

    /// The session after `report`. A report that does not tell of the success
    /// of the pending step counts as its failure. A link that could not be
    /// opened is warned of, and the next link is opened all the same.
    pub open spec fn after(self, report: Report) -> SessionView {
        match self.stage {
            StageView::Reading(_) => Self::with_source(
                if report is Source {
                    text_of(report)
                } else {
                    None
                },
            ),
            StageView::ChoosingPodcast(podcasts, selector) => Self::choosing_podcast(
                podcasts,
                selector.after(event_of(report)),
                Seq::empty(),
            ),
            StageView::Fetching(podcast) => Self::with_feed(
                podcast,
                if report is Feed {
                    text_of(report)
                } else {
                    None
                },
            ),
            StageView::ChoosingEpisode(episodes, selector) => Self::choosing_episode(
                episodes,
                selector.after(event_of(report)),
                Seq::empty(),
            ),
            StageView::Opening(links, at) => Self::opening(
                links,
                at + 1,
                if report matches Report::Opened(true) {
                    Seq::empty()
                } else {
                    seq![open_failure_text(links[at as int])]
                },
            ),
            StageView::Finished => Self::finished(Seq::empty()),
        }
    }

    /// The session after each of `reports` in turn.
    pub open spec fn after_all(self, reports: Seq<Report>) -> SessionView
        decreases reports.len(),
    {
        if reports.len() == 0 {
            self
        } else {
            self.after_all(reports.drop_last()).after(reports.last())
        }
    }

    /// Whether the terminal may be captured once the caller has taken each
    /// step that the session asked for while `reports` came in, the terminal
    /// being free at the start. An attempt to capture counts as a capture even
    /// where it fails; only a release frees the terminal.
    pub open spec fn captured_after(self, reports: Seq<Report>) -> bool
        decreases reports.len(),
    {
        if reports.len() == 0 {
            false
        } else {
            match self.after_all(reports.drop_last()).pending() {
                StepView::Terminal(Action::Acquire) => true,
                StepView::Terminal(Action::Release) => false,
                _ => self.captured_after(reports.drop_last()),
            }
        }
    }
}

/// The line that tells that the run ends with no link opened.
pub fn exiting_notice() -> (r: String)
    ensures
        r@ == exiting_text(),
{
    String::from_str("Exiting without opening any links.")
}

/// The line that tells that an episode has no show notes.
pub fn no_content_notice() -> (r: String)
    ensures
        r@ == no_content_text(),
{
    String::from_str("No content available for this episode")
}

/// The line that tells why the episodes could not be loaded.
pub fn episodes_failure_notice(fault: Fault) -> (r: String)
    ensures
        r@ == episodes_failure_text(fault),
{
    let mut out = String::from_str("Error fetching episodes: ");
    out.append(fault.describe().as_str());
    out
}

/// The line that announces the links of the episode `title`.
pub fn opening_notice(title: &str) -> (r: String)
    ensures
        r@ == opening_text(title@),
{
    let mut out = String::from_str("Opening links for episode: ");
    out.append(title);
    out
}

/// The line that warns that `link` could not be opened.
pub fn open_failure_notice(link: &str) -> (r: String)
    ensures
        r@ == open_failure_text(link@),
{
    let mut out = Fault::LinkOpenFailed.describe();
    out.append(": ");
    out.append(link);
    out
}

/// `notices` and one line more.
fn saying(notices: Vec<String>, line: String) -> (r: Vec<String>)
    ensures
        texts(r@) == texts(notices@).push(line@),
{
    let mut said = notices;
    said.push(line);
    assert(texts(said@) =~= texts(notices@).push(line@));
    said
}

/// No lines.
fn silence() -> (r: Vec<String>)
    ensures
        texts(r@) == Seq::<Seq<char>>::empty(),
{
    let none: Vec<String> = Vec::new();
    assert(texts(none@) =~= Seq::<Seq<char>>::empty());
    none
}

/// The state machine of one run.
pub struct Session {
    stage: Stage,
    notices: Vec<String>,
}

impl View for Session {
    type V = SessionView;

    closed spec fn view(&self) -> SessionView {
        SessionView { stage: self.stage@, notices: texts(self.notices@) }
    }
}

impl Session {
    #[verifier::type_invariant]
    spec fn inv(self) -> bool {
        self@.wf()
    }

    /// The session of a run on the subscription list at `source`. Its first
    /// step is to read that list.
    pub fn new(source: String) -> (r: Session)
        ensures
            r@.wf(),
            r@ == SessionView::start(source@),
    {
        Session { stage: Stage::Reading(source), notices: silence() }
    }

    fn finished(notices: Vec<String>) -> (r: Session)
        ensures
            r@ == SessionView::finished(texts(notices@)),
    {
        Session { stage: Stage::Finished, notices }
    }

    fn with_source(content: Option<String>) -> (r: Session)
        ensures
            r@ == SessionView::with_source(crate::text::opt_text(content)),
    {
        let loaded = match &content {
            Some(text) => load_podcasts(Some(text.as_str())),
            None => load_podcasts(None),
        };
        match loaded {
            Ok(podcasts) => {
                let selector = Selector::new(
                    String::from_str("Select a Podcast"),
                    String::from_str(
                        "Enter the number of the podcast you want to select (or 'q' to quit):",
                    ),
                    labels_of_podcasts(&podcasts),
                );
                let notices = saying(silence(), podcast_count_notice(podcasts.len()));
                assert(texts(notices@) =~= seq![podcast_count_text(podcasts.len() as nat)]);
                Self::choosing_podcast(podcasts, selector, notices)
            },
            Err(fault) => {
                let notices = saying(silence(), fault.describe());
                assert(texts(notices@) =~= seq![fault_text(fault)]);
                Self::finished(notices)
            },
        }
    }

    fn choosing_podcast(podcasts: Vec<Podcast>, selector: Selector, notices: Vec<String>) -> (r:
        Session)
        requires
            selector@.list.labels == podcast_labels(podcast_views(podcasts@)),
        ensures
            r@ == SessionView::choosing_podcast(
                podcast_views(podcasts@),
                selector@,
                texts(notices@),
            ),
    {
        match selector.pending() {
            Action::Finish(choice) => Self::with_podcast(podcasts, choice, notices),
            _ => Session { stage: Stage::ChoosingPodcast(podcasts, selector), notices },
        }
    }

    fn with_podcast(podcasts: Vec<Podcast>, choice: Choice, notices: Vec<String>) -> (r: Session)
        ensures
            r@ == SessionView::with_podcast(podcast_views(podcasts@), choice, texts(notices@)),
    {
        match choice {
            Choice::Selected(index) => {
                if index < podcasts.len() {
                    let mut podcasts = podcasts;
                    let podcast = podcasts.swap_remove(index);
                    if podcast.url.is_some() {
                        let said = saying(notices, fetching_notice(podcast.name.as_str()));
                        Session { stage: Stage::Fetching(podcast), notices: said }
                    } else {
                        Self::finished(
                            saying(notices, episodes_failure_notice(Fault::MissingFeedUrl)),
                        )
                    }
                } else {
                    Self::finished(saying(notices, exiting_notice()))
                }
            },
            Choice::Cancelled => Self::finished(saying(notices, exiting_notice())),
        }
    }

    fn with_feed(podcast: Podcast, body: Option<String>) -> (r: Session)
        ensures
            r@ == SessionView::with_feed(podcast@, crate::text::opt_text(body)),
    {
        let loaded = match &body {
            Some(text) => load_episodes(&podcast, Some(text.as_str())),
            None => load_episodes(&podcast, None),
        };
        match loaded {
            Ok(episodes) => {
                let selector = Selector::new(
                    String::from_str("Select an Episode (Latest First)"),
                    String::from_str(
                        "Enter the number of the episode you want to select (or 'q' to quit):",
                    ),
                    labels_of_episodes(&episodes),
                );
                let notices = saying(
                    silence(),
                    episode_count_notice(podcast.name.as_str(), episodes.len()),
                );
                assert(texts(notices@) =~= seq![
                    episode_count_text(podcast@.name, episodes.len() as nat),
                ]);
                Self::choosing_episode(episodes, selector, notices)
            },
            Err(fault) => {
                let notices = saying(silence(), episodes_failure_notice(fault));
                assert(texts(notices@) =~= seq![episodes_failure_text(fault)]);
                Self::finished(notices)
            },
        }
    }

    fn choosing_episode(episodes: Vec<Episode>, selector: Selector, notices: Vec<String>) -> (r:
        Session)
        requires
            selector@.list.labels == episode_labels(episode_views(episodes@)),
        ensures
            r@ == SessionView::choosing_episode(
                episode_views(episodes@),
                selector@,
                texts(notices@),
            ),
    {
        match selector.pending() {
            Action::Finish(choice) => Self::with_episode(episodes, choice, notices),
            _ => Session { stage: Stage::ChoosingEpisode(episodes, selector), notices },
        }
    }

    fn with_episode(episodes: Vec<Episode>, choice: Choice, notices: Vec<String>) -> (r: Session)
        ensures
            r@ == SessionView::with_episode(episode_views(episodes@), choice, texts(notices@)),
    {
        match choice {
            Choice::Selected(index) => {
                if index < episodes.len() {
                    let episode = &episodes[index];
                    let said = saying(notices, opening_notice(episode.title.as_str()));
                    if episode.content.is_some() {
                        Self::opening(episode_links(episode), 0, said)
                    } else {
                        Self::finished(saying(said, no_content_notice()))
                    }
                } else {
                    Self::finished(saying(notices, exiting_notice()))
                }
            },
            Choice::Cancelled => Self::finished(saying(notices, exiting_notice())),
        }
    }

    fn opening(links: Vec<String>, at: usize, notices: Vec<String>) -> (r: Session)
        ensures
            r@ == SessionView::opening(texts(links@), at as nat, texts(notices@)),
    {
        if at < links.len() {
            Session { stage: Stage::Opening(links, at), notices }
        } else {
            Self::finished(notices)
        }
    }

    /// The lines to print before the pending step is taken.
    pub fn notices(&self) -> (r: &Vec<String>)
        ensures
            texts(r@) == self@.notices,
    {
        &self.notices
    }

    /// The selector of the selection that is under way, if one is.
    pub fn selector(&self) -> (r: Option<&Selector>)
        ensures
            self@.wf(),
            match self@.stage {
                StageView::ChoosingPodcast(_, selector) => r matches Some(s) && s@ == selector,
                StageView::ChoosingEpisode(_, selector) => r matches Some(s) && s@ == selector,
                _ => r is None,
            },
    {
        proof {
            use_type_invariant(self);
        }
        match &self.stage {
            Stage::ChoosingPodcast(_, selector) => Some(selector),
            Stage::ChoosingEpisode(_, selector) => Some(selector),
            _ => None,
        }
    }

    /// The step that the session waits for.
    pub fn pending(&self) -> (r: Step)
        ensures
            self@.wf(),
            r@ == self@.pending(),
    {
        proof {
            use_type_invariant(self);
        }
        match &self.stage {
            Stage::Reading(source) => Step::Read(source_kind(source.as_str()), source.clone()),
            Stage::ChoosingPodcast(_, selector) => Step::Terminal(selector.pending()),
            Stage::Fetching(podcast) => match &podcast.url {
                Some(url) => Step::Fetch(url.clone()),
                None => Step::Fetch(String::new()),
            },
            Stage::ChoosingEpisode(_, selector) => Step::Terminal(selector.pending()),
            Stage::Opening(links, at) => Step::Open(links[*at].clone()),
            Stage::Finished => Step::Exit,
        }
    }

    /// Takes in what came of the pending step and returns the next one.
    pub fn advance(&mut self, report: Report) -> (next: Step)
        ensures
            old(self)@.wf(),
            final(self)@.wf(),
            final(self)@ == old(self)@.after(report),
            next@ == final(self)@.pending(),
    {
        proof {
            use_type_invariant(&*self);
        }
        let mut stage = Stage::Finished;
        core::mem::swap(&mut self.stage, &mut stage);
        let next = match stage {
            Stage::Reading(_) => {
                let content = match report {
                    Report::Source(content) => content,
                    _ => None,
                };
                Self::with_source(content)
            },
            Stage::ChoosingPodcast(podcasts, selector) => {
                let event = match report {
                    Report::Terminal(event) => event,
                    _ => Event::Failed,
                };
                let mut selector = selector;
                selector.step(event);
                Self::choosing_podcast(podcasts, selector, silence())
            },
            Stage::Fetching(podcast) => {
                let body = match report {
                    Report::Feed(body) => body,
                    _ => None,
                };
                Self::with_feed(podcast, body)
            },
            Stage::ChoosingEpisode(episodes, selector) => {
                let event = match report {
                    Report::Terminal(event) => event,
                    _ => Event::Failed,
                };
                let mut selector = selector;
                selector.step(event);
                Self::choosing_episode(episodes, selector, silence())
            },
            Stage::Opening(links, at) => {
                assert(at < links.len()) by {
                    assert(texts(links@).len() == links.len());
                }
                let notices = match report {
                    Report::Opened(true) => silence(),
                    _ => {
                        let said = saying(silence(), open_failure_notice(links[at].as_str()));
                        assert(texts(said@) =~= seq![open_failure_text(links@[at as int]@)]);
                        said
                    },
                };
                Self::opening(links, at + 1, notices)
            },
            Stage::Finished => Self::finished(silence()),
        };
        proof {
            use_type_invariant(&next);
        }
        *self = next;
        self.pending()
    }
}

} // verus!
