use shownote::catalog::Feed;
use shownote::fault::Fault;
use shownote::subscription::{
    load_podcasts, podcast_count_notice, podcasts_from_outlines, source_kind, Outline, SourceKind,
    DEFAULT_SOURCE, MAX_SUBSCRIPTION_BYTES,
};

const LIST: &str = r#"<?xml version="1.0" encoding="UTF-8"?>
<opml version="2.0">
  <head><title>Favourites</title></head>
  <body>
    <outline text="Zeta Cast" type="rss" xmlUrl="https://zeta.example/feed.xml" description="Last letter"/>
    <outline text="No Address"/>
    <outline text="Alpha Cast" xmlUrl="https://alpha.example/rss"/>
  </body>
</opml>"#;

#[test]
fn podcasts_come_in_document_order() {
    let podcasts = load_podcasts(Some(LIST)).unwrap();
    let names: Vec<&str> = podcasts.iter().map(|p| p.name.as_str()).collect();
    assert_eq!(names, vec!["Zeta Cast", "No Address", "Alpha Cast"]);
}

#[test]
fn outline_attributes_become_podcast_fields() {
    let podcasts = load_podcasts(Some(LIST)).unwrap();
    assert_eq!(podcasts[0].name, "Zeta Cast");
    assert_eq!(podcasts[0].url.as_deref(), Some("https://zeta.example/feed.xml"));
    assert_eq!(podcasts[0].description.as_deref(), Some("Last letter"));
    assert_eq!(podcasts[0].feed, Feed::Rss);
    assert_eq!(podcasts[2].url.as_deref(), Some("https://alpha.example/rss"));
    assert_eq!(podcasts[2].description, None);
}

#[test]
fn outline_without_feed_url_is_kept() {
    let podcasts = load_podcasts(Some(LIST)).unwrap();
    assert_eq!(podcasts.len(), 3);
    assert_eq!(podcasts[1].name, "No Address");
    assert_eq!(podcasts[1].url, None);
}

#[test]
fn unreadable_source_is_reported() {
    assert_eq!(load_podcasts(None).err(), Some(Fault::SourceUnreachable));
}

#[test]
fn text_that_is_no_outline_document_is_reported() {
    for text in ["", "not xml at all", "<opml version=\"2.0\"><head/>", "<rss version=\"2.0\"/>", LIST.trim_end_matches("</opml>")] {
        assert_eq!(load_podcasts(Some(text)).err(), Some(Fault::MalformedSubscription), "{:?}", text);
    }
}

#[test]
fn document_without_outlines_is_reported() {
    let text = r#"<opml version="2.0"><head/><body/></opml>"#;
    assert_eq!(load_podcasts(Some(text)).err(), Some(Fault::MalformedSubscription));
}

#[test]
fn document_of_unknown_version_is_reported() {
    let text = r#"<opml version="9.9"><head/><body><outline text="x"/></body></opml>"#;
    assert_eq!(load_podcasts(Some(text)).err(), Some(Fault::MalformedSubscription));
}

#[test]
fn podcasts_from_outlines_keeps_order_and_fields() {
    let outlines = vec![
        Outline { text: "b".to_string(), xml_url: None, description: Some("d".to_string()) },
        Outline { text: "a".to_string(), xml_url: Some("u".to_string()), description: None },
    ];
    let podcasts = podcasts_from_outlines(outlines);
    assert_eq!(podcasts.len(), 2);
    assert_eq!(podcasts[0].name, "b");
    assert_eq!(podcasts[0].url, None);
    assert_eq!(podcasts[0].description.as_deref(), Some("d"));
    assert_eq!(podcasts[0].feed, Feed::Rss);
    assert_eq!(podcasts[1].name, "a");
    assert_eq!(podcasts[1].url.as_deref(), Some("u"));
    assert_eq!(podcasts[1].description, None);
    assert!(podcasts_from_outlines(Vec::new()).is_empty());
}

#[test]
fn source_with_web_scheme_is_remote() {
    assert_eq!(source_kind("http://example.org/list.opml"), SourceKind::Remote);
    assert_eq!(source_kind("https://example.org/list.opml"), SourceKind::Remote);
    assert_eq!(source_kind("https://"), SourceKind::Remote);
    assert_eq!(source_kind(DEFAULT_SOURCE), SourceKind::Remote);
}

#[test]
fn any_other_source_is_a_path() {
    for source in ["", "list.opml", "/home/me/list.opml", "./http://x", "http:/x", "https:/", "ftp://x/list", "HTTP://x", " http://x", "httpx://y"] {
        assert_eq!(source_kind(source), SourceKind::Local, "{:?}", source);
    }
}

#[test]
fn default_source_is_the_favourites_list() {
    assert_eq!(
        DEFAULT_SOURCE,
        "https://raw.githubusercontent.com/frogshead/shownote/main/src/fav-podcasts.opml"
    );
}

#[test]
fn count_notice_tells_the_number() {
    assert_eq!(podcast_count_notice(0), "Total number of podcasts: 0");
    assert_eq!(podcast_count_notice(17), "Total number of podcasts: 17");
}

#[test]
fn documents_are_read_up_to_the_limit() {
    assert_eq!(MAX_SUBSCRIPTION_BYTES, 4_294_967_294);
}

#[test]
fn rejected_document_of_many_lines_is_reported() {
    let mut text = "\n".repeat(200_000);
    text.push_str("<opml version=\"2.0\"><head/><body><outline text=\"x\"></body></opml>");
    assert_eq!(load_podcasts(Some(&text)).err(), Some(Fault::MalformedSubscription));
    let mut text = " ".repeat(200_000);
    text.push_str("<opml");
    assert_eq!(load_podcasts(Some(&text)).err(), Some(Fault::MalformedSubscription));
}
