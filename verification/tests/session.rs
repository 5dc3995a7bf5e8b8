use shownote::selector::{Action, Event, Key};
use shownote::session::{
    episodes_failure_notice, exiting_notice, no_content_notice, open_failure_notice,
    opening_notice, Report, Session, Step,
};
use shownote::fault::Fault;
use shownote::subscription::SourceKind;

const LIST: &str = r#"<opml version="2.0"><head/><body>
    <outline text="Zeta" xmlUrl="https://zeta.example/feed"/>
    <outline text="Mute"/>
    <outline text="Alpha" xmlUrl="https://alpha.example/feed"/>
</body></opml>"#;

const FEED: &str = r#"<rss version="2.0" xmlns:content="http://purl.org/rss/1.0/modules/content/">
<channel><title>Zeta</title><link>l</link><description>d</description>
<item><title>Three links</title><pubDate>Wed, 03 Jan 2024</pubDate>
  <content:encoded><![CDATA[<a href="http://one">1</a> <a>none</a> <a href="http://two">2</a> <a href="http://three">3</a>]]></content:encoded></item>
<item><title>No notes</title></item>
<item><title>No links</title><content:encoded><![CDATA[<p>plain</p>]]></content:encoded></item>
</channel></rss>"#;

const EMPTY_FEED: &str = r#"<rss version="2.0"><channel><title>Zeta</title><link>l</link><description>d</description></channel></rss>"#;

fn notices(session: &Session) -> Vec<String> {
    session.notices().clone()
}

fn terminal(session: &mut Session, event: Event) -> Step {
    session.advance(Report::Terminal(event))
}

/// Chooses on the full screen: `downs` moves, then Enter.
fn pick(session: &mut Session, downs: usize) -> Step {
    assert_eq!(session.pending(), Step::Terminal(Action::Acquire));
    assert_eq!(terminal(session, Event::Acquired), Step::Terminal(Action::Draw));
    assert_eq!(terminal(session, Event::Drawn), Step::Terminal(Action::Read));
    for _ in 0..downs {
        assert_eq!(terminal(session, Event::Key(Key::Down)), Step::Terminal(Action::Draw));
        assert!(session.notices().is_empty());
        assert_eq!(terminal(session, Event::Drawn), Step::Terminal(Action::Read));
    }
    assert_eq!(terminal(session, Event::Key(Key::Enter)), Step::Terminal(Action::Release));
    terminal(session, Event::Released)
}

/// A session in which the list is read and the podcast at `podcast` chosen.
fn at_feed(podcast: usize) -> Session {
    let mut session = Session::new("list.opml".to_string());
    session.advance(Report::Source(Some(LIST.to_string())));
    pick(&mut session, podcast);
    session
}

/// A session in which the episode at `episode` of the first podcast is chosen.
fn at_links(episode: usize) -> (Session, Step) {
    let mut session = at_feed(0);
    session.advance(Report::Feed(Some(FEED.to_string())));
    let step = pick(&mut session, episode);
    (session, step)
}

#[test]
fn session_starts_by_reading_the_source() {
    let session = Session::new("https://example.org/list.opml".to_string());
    assert_eq!(
        session.pending(),
        Step::Read(SourceKind::Remote, "https://example.org/list.opml".to_string())
    );
    assert!(session.notices().is_empty());
    assert!(session.selector().is_none());
    let session = Session::new("list.opml".to_string());
    assert_eq!(session.pending(), Step::Read(SourceKind::Local, "list.opml".to_string()));
}

#[test]
fn unread_source_ends_the_run() {
    let mut session = Session::new("list.opml".to_string());
    assert_eq!(session.advance(Report::Source(None)), Step::Exit);
    assert_eq!(notices(&session), vec![Fault::SourceUnreachable.describe()]);
}

#[test]
fn malformed_list_ends_the_run() {
    let mut session = Session::new("list.opml".to_string());
    assert_eq!(session.advance(Report::Source(Some("<opml".to_string()))), Step::Exit);
    assert_eq!(notices(&session), vec![Fault::MalformedSubscription.describe()]);
}

#[test]
fn read_list_opens_the_podcast_selection() {
    let mut session = Session::new("list.opml".to_string());
    let step = session.advance(Report::Source(Some(LIST.to_string())));
    assert_eq!(step, Step::Terminal(Action::Acquire));
    assert_eq!(notices(&session), vec!["Total number of podcasts: 3"]);
    let selector = session.selector().unwrap();
    assert_eq!(selector.title(), "Select a Podcast");
    assert_eq!(
        selector.prompt(),
        "Enter the number of the podcast you want to select (or 'q' to quit):"
    );
    assert_eq!(
        selector.list().labels(),
        &vec![
            "Zeta - https://zeta.example/feed".to_string(),
            "Mute - No URL".to_string(),
            "Alpha - https://alpha.example/feed".to_string(),
        ]
    );
}

#[test]
fn chosen_podcast_is_fetched() {
    let mut session = Session::new("list.opml".to_string());
    session.advance(Report::Source(Some(LIST.to_string())));
    let step = pick(&mut session, 2);
    assert_eq!(step, Step::Fetch("https://alpha.example/feed".to_string()));
    assert_eq!(notices(&session), vec!["Fetching podcast feed Alpha... "]);
    assert!(session.selector().is_none());
}

#[test]
fn podcast_without_url_is_reported_and_not_fetched() {
    let mut session = Session::new("list.opml".to_string());
    session.advance(Report::Source(Some(LIST.to_string())));
    let step = pick(&mut session, 1);
    assert_eq!(step, Step::Exit);
    assert_eq!(notices(&session), vec![episodes_failure_notice(Fault::MissingFeedUrl)]);
    assert_eq!(notices(&session), vec!["Error fetching episodes: The podcast has no feed URL"]);
}

#[test]
fn cancelled_podcast_selection_ends_the_run() {
    let mut session = Session::new("list.opml".to_string());
    session.advance(Report::Source(Some(LIST.to_string())));
    terminal(&mut session, Event::Acquired);
    terminal(&mut session, Event::Drawn);
    assert_eq!(terminal(&mut session, Event::Key(Key::Char('q'))), Step::Terminal(Action::Release));
    assert_eq!(terminal(&mut session, Event::Released), Step::Exit);
    assert_eq!(notices(&session), vec![exiting_notice()]);
    assert_eq!(exiting_notice(), "Exiting without opening any links.");
}

#[test]
fn podcast_chosen_at_the_prompt_is_fetched() {
    let mut session = Session::new("list.opml".to_string());
    session.advance(Report::Source(Some(LIST.to_string())));
    assert_eq!(terminal(&mut session, Event::Failed), Step::Terminal(Action::Release));
    assert_eq!(terminal(&mut session, Event::Released), Step::Terminal(Action::Prompt));
    assert_eq!(session.selector().unwrap().prompt_screen().len(), 5);
    let step = terminal(&mut session, Event::Line("99\n".to_string()));
    assert_eq!(step, Step::Fetch("https://alpha.example/feed".to_string()));
}

#[test]
fn unfetched_feed_ends_the_run() {
    let mut session = at_feed(0);
    assert_eq!(session.advance(Report::Feed(None)), Step::Exit);
    assert_eq!(notices(&session), vec!["Error fetching episodes: Cannot fetch the podcast feed"]);
}

#[test]
fn malformed_feed_ends_the_run() {
    let mut session = at_feed(0);
    assert_eq!(session.advance(Report::Feed(Some("<rss".to_string()))), Step::Exit);
    assert_eq!(notices(&session), vec!["Error fetching episodes: Cannot parse the podcast feed"]);
}

#[test]
fn fetched_feed_opens_the_episode_selection() {
    let mut session = at_feed(0);
    let step = session.advance(Report::Feed(Some(FEED.to_string())));
    assert_eq!(step, Step::Terminal(Action::Acquire));
    assert_eq!(notices(&session), vec!["Zeta has 3 episodes"]);
    let selector = session.selector().unwrap();
    assert_eq!(selector.title(), "Select an Episode (Latest First)");
    assert_eq!(
        selector.prompt(),
        "Enter the number of the episode you want to select (or 'q' to quit):"
    );
    assert_eq!(
        selector.list().labels(),
        &vec![
            "Three links (Wed, 03 Jan 2024)".to_string(),
            "No notes (No date)".to_string(),
            "No links (No date)".to_string(),
        ]
    );
}

#[test]
fn feed_without_episodes_ends_the_run_cancelled() {
    let mut session = at_feed(0);
    assert_eq!(session.advance(Report::Feed(Some(EMPTY_FEED.to_string()))), Step::Exit);
    assert_eq!(
        notices(&session),
        vec!["Zeta has 0 episodes", "Exiting without opening any links."]
    );
}

#[test]
fn cancelled_episode_selection_ends_the_run() {
    let mut session = at_feed(0);
    session.advance(Report::Feed(Some(FEED.to_string())));
    terminal(&mut session, Event::Acquired);
    terminal(&mut session, Event::Drawn);
    terminal(&mut session, Event::Key(Key::Esc));
    assert_eq!(terminal(&mut session, Event::Released), Step::Exit);
    assert_eq!(notices(&session), vec!["Exiting without opening any links."]);
}

#[test]
fn chosen_episode_has_its_links_opened_in_order() {
    let (mut session, step) = at_links(0);
    assert_eq!(step, Step::Open("http://one".to_string()));
    assert_eq!(notices(&session), vec![opening_notice("Three links")]);
    assert_eq!(notices(&session), vec!["Opening links for episode: Three links"]);
    assert_eq!(session.advance(Report::Opened(true)), Step::Open("http://two".to_string()));
    assert!(session.notices().is_empty());
    assert_eq!(session.advance(Report::Opened(true)), Step::Open("http://three".to_string()));
    assert_eq!(session.advance(Report::Opened(true)), Step::Exit);
    assert!(session.notices().is_empty());
}

#[test]
fn failed_second_link_does_not_stop_the_third() {
    let (mut session, step) = at_links(0);
    let mut attempted = vec![];
    let mut logged = vec![];
    let mut step = step;
    while let Step::Open(link) = step {
        let opened = link != "http://two";
        attempted.push(link);
        step = session.advance(Report::Opened(opened));
        logged.extend(notices(&session));
    }
    assert_eq!(step, Step::Exit);
    assert_eq!(attempted, vec!["http://one", "http://two", "http://three"]);
    assert_eq!(logged, vec![open_failure_notice("http://two")]);
    assert_eq!(logged, vec!["Cannot open shownote url: http://two"]);
}

#[test]
fn every_link_is_tried_when_all_fail() {
    let (mut session, step) = at_links(0);
    assert_eq!(step, Step::Open("http://one".to_string()));
    assert_eq!(session.advance(Report::Opened(false)), Step::Open("http://two".to_string()));
    assert_eq!(notices(&session), vec!["Cannot open shownote url: http://one"]);
    assert_eq!(session.advance(Report::Feed(None)), Step::Open("http://three".to_string()));
    assert_eq!(notices(&session), vec!["Cannot open shownote url: http://two"]);
    assert_eq!(session.advance(Report::Opened(false)), Step::Exit);
    assert_eq!(notices(&session), vec!["Cannot open shownote url: http://three"]);
}

#[test]
fn episode_without_content_says_no_content() {
    let (session, step) = at_links(1);
    assert_eq!(step, Step::Exit);
    assert_eq!(
        notices(&session),
        vec![opening_notice("No notes"), no_content_notice()]
    );
    assert_eq!(no_content_notice(), "No content available for this episode");
}

#[test]
fn episode_without_links_opens_nothing_and_has_content() {
    let (session, step) = at_links(2);
    assert_eq!(step, Step::Exit);
    assert_eq!(notices(&session), vec!["Opening links for episode: No links"]);
}

#[test]
fn finished_session_stays_finished() {
    let (mut session, _) = at_links(1);
    assert_eq!(session.advance(Report::Opened(true)), Step::Exit);
    assert!(session.notices().is_empty());
    assert_eq!(session.advance(Report::Source(Some(LIST.to_string()))), Step::Exit);
    assert_eq!(session.advance(Report::Terminal(Event::Acquired)), Step::Exit);
    assert_eq!(session.pending(), Step::Exit);
}

#[test]
fn report_of_another_step_counts_as_failure() {
    let mut session = Session::new("list.opml".to_string());
    assert_eq!(session.advance(Report::Feed(Some(LIST.to_string()))), Step::Exit);
    assert_eq!(notices(&session), vec![Fault::SourceUnreachable.describe()]);

    let mut session = at_feed(0);
    assert_eq!(session.advance(Report::Source(Some(FEED.to_string()))), Step::Exit);
    assert_eq!(notices(&session), vec!["Error fetching episodes: Cannot fetch the podcast feed"]);

    let mut session = Session::new("list.opml".to_string());
    session.advance(Report::Source(Some(LIST.to_string())));
    assert_eq!(session.advance(Report::Opened(true)), Step::Terminal(Action::Release));
    assert_eq!(session.advance(Report::Opened(true)), Step::Terminal(Action::Prompt));
}

#[test]
fn whole_run_with_fallback_prompts() {
    let mut session = Session::new("https://example.org/list.opml".to_string());
    let mut printed: Vec<String> = vec![];
    let mut opened: Vec<String> = vec![];
    let mut captured = false;
    let mut lines = vec!["0\n".to_string(), "0\n".to_string()].into_iter();
    let mut step = session.pending();
    for _ in 0..100 {
        printed.extend(notices(&session));
        let report = match step {
            Step::Read(kind, source) => {
                assert_eq!(kind, SourceKind::Remote);
                assert_eq!(source, "https://example.org/list.opml");
                Report::Source(Some(LIST.to_string()))
            }
            Step::Terminal(Action::Acquire) => {
                captured = true;
                Report::Terminal(Event::Failed)
            }
            Step::Terminal(Action::Release) => {
                captured = false;
                Report::Terminal(Event::Released)
            }
            Step::Terminal(Action::Prompt) => {
                assert!(!captured);
                printed.extend(session.selector().unwrap().prompt_screen());
                Report::Terminal(Event::Line(lines.next().unwrap()))
            }
            Step::Terminal(other) => panic!("unexpected {:?}", other),
            Step::Fetch(url) => {
                assert_eq!(url, "https://zeta.example/feed");
                Report::Feed(Some(FEED.to_string()))
            }
            Step::Open(link) => {
                assert!(!captured);
                opened.push(link);
                Report::Opened(true)
            }
            Step::Exit => break,
        };
        step = session.advance(report);
    }
    assert_eq!(step, Step::Exit);
    assert_eq!(opened, vec!["http://one", "http://two", "http://three"]);
    assert_eq!(
        printed,
        vec![
            "Total number of podcasts: 3",
            "Terminal UI not available, falling back to index selection",
            "[0] Zeta - https://zeta.example/feed",
            "[1] Mute - No URL",
            "[2] Alpha - https://alpha.example/feed",
            "Enter the number of the podcast you want to select (or 'q' to quit):",
            "Fetching podcast feed Zeta... ",
            "Zeta has 3 episodes",
            "Terminal UI not available, falling back to index selection",
            "[0] Three links (Wed, 03 Jan 2024)",
            "[1] No notes (No date)",
            "[2] No links (No date)",
            "Enter the number of the episode you want to select (or 'q' to quit):",
            "Opening links for episode: Three links",
        ]
    );
}
