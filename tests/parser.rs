use podcast_player_api::date::{parse_date, FeedDate};
use podcast_player_api::rss_feed::{FeedParseError, RssChannel, RssFeed};
use podcast_player_api::text::{parse_i32, trim};
use podcast_player_api::xml::parse_xml;

const ITEM_A: &str = "<item><title>Episode A</title><pubDate>Tue, 10 Jun 2003 04:00:00 GMT</pubDate>\
<enclosure url=\"http://example.com/a.mp3\" type=\"audio/mpeg\" length=\"1234\"/></item>";
const ITEM_B: &str = "<item><title>Episode B</title><pubDate>Tue, 10 Jun 2003 04:00:00 GMT</pubDate>\
<enclosure url=\"http://example.com/b.mp3\" type=\"audio/mpeg\" length=\"99\"/></item>";

fn rss(channels: &str) -> String {
    format!(
        "<?xml version=\"1.0\"?><rss version=\"2.0\" \
xmlns:itunes=\"http://www.itunes.com/dtds/podcast-1.0.dtd\">{}</rss>",
        channels
    )
}

fn only_channel(text: &str) -> RssChannel {
    let mut feed = RssFeed::parse(text).expect("feed parses");
    assert_eq!(feed.channels.len(), 1);
    feed.channels.remove(0)
}

#[test]
fn parses_channel_with_items() {
    let text = rss(&format!(
        "<channel><title>Show</title><description>  About the show  </description>\
<image><url>http://example.com/cover.png</url></image>{}{}</channel>",
        ITEM_A, ITEM_B
    ));
    let c = only_channel(&text);
    assert_eq!(c.title, "Show");
    assert_eq!(c.description, "About the show");
    assert_eq!(c.image.as_deref(), Some("http://example.com/cover.png"));
    assert_eq!(c.items.len(), 2);
    assert_eq!(c.items[0].title, "Episode A");
    assert_eq!(c.items[0].enclosure.url, "http://example.com/a.mp3");
    assert_eq!(c.items[0].enclosure.mime_type, "audio/mpeg");
    assert_eq!(c.items[0].enclosure.length, 1234);
    assert_eq!(c.items[0].date, FeedDate { timestamp: 1055217600, nanos: 0, offset: 0 });
    assert_eq!(c.items[1].enclosure.length, 99);
}

#[test]
fn bare_channel_root_parses() {
    let text = format!("<channel><title>Bare</title><description>d</description>{}</channel>", ITEM_A);
    let c = only_channel(&text);
    assert_eq!(c.title, "Bare");
    assert_eq!(c.items.len(), 1);
}

#[test]
fn item_without_enclosure_is_skipped() {
    let broken = "<item><title>Broken</title><pubDate>Tue, 10 Jun 2003 04:00:00 GMT</pubDate></item>";
    let text = rss(&format!(
        "<channel><title>Show</title><description>d</description>{}{}{}</channel>",
        ITEM_A, broken, ITEM_B
    ));
    let c = only_channel(&text);
    let titles: Vec<&str> = c.items.iter().map(|i| i.title.as_str()).collect();
    assert_eq!(titles, vec!["Episode A", "Episode B"]);
}

#[test]
fn item_with_bad_length_is_skipped() {
    let broken = "<item><title>Bad</title><pubDate>Tue, 10 Jun 2003 04:00:00 GMT</pubDate>\
<enclosure url=\"u\" type=\"t\" length=\"12a\"/></item>";
    let text = rss(&format!("<channel><title>S</title><description>d</description>{}{}</channel>", broken, ITEM_B));
    let c = only_channel(&text);
    assert_eq!(c.items.len(), 1);
    assert_eq!(c.items[0].title, "Episode B");
}

#[test]
fn summary_replaces_missing_description() {
    let text = rss("<channel><title>Show</title><itunes:summary>  From iTunes </itunes:summary>\
<itunes:image href=\"http://example.com/i.jpg\"/></channel>");
    let c = only_channel(&text);
    assert_eq!(c.description, "From iTunes");
    assert_eq!(c.image.as_deref(), Some("http://example.com/i.jpg"));
}

#[test]
fn description_wins_over_summary() {
    let text = rss("<channel><title>Show</title><itunes:summary>s</itunes:summary>\
<description>plain</description></channel>");
    let c = only_channel(&text);
    assert_eq!(c.description, "plain");
}

#[test]
fn summary_in_other_namespace_is_ignored() {
    let text = "<rss xmlns:x=\"http://example.com/ns\"><channel><title>Show</title>\
<x:summary>s</x:summary></channel></rss>";
    let feed = RssFeed::parse(text).expect("feed parses");
    assert_eq!(feed.channels.len(), 0);
}

#[test]
fn channel_without_title_is_skipped_siblings_kept() {
    let text = rss("<channel><description>no title</description></channel>\
<channel><title>Second</title><description>d</description></channel>");
    let feed = RssFeed::parse(&text).expect("feed parses");
    assert_eq!(feed.channels.len(), 1);
    assert_eq!(feed.channels[0].title, "Second");
}

#[test]
fn two_channels_parse_in_order() {
    let text = rss("<channel><title>One</title><description>a</description></channel>\
<channel><title>Two</title><description>b</description></channel>");
    let feed = RssFeed::parse(&text).expect("feed parses");
    assert_eq!(feed.channels.len(), 2);
    assert_eq!(feed.channels[0].title, "One");
    assert_eq!(feed.channels[1].title, "Two");
}

#[test]
fn malformed_xml_is_an_error() {
    assert!(matches!(RssFeed::parse("<rss><channel>"), Err(FeedParseError::Xml)));
}

#[test]
fn channel_parse_reports_missing_field() {
    let doc = parse_xml("<channel><title>t</title></channel>").expect("xml");
    let root = &doc.nodes[doc.root];
    assert!(matches!(RssFeed::parse_channel(&doc, root), Err(FeedParseError::MissingField)));
}

#[test]
fn item_parse_errors() {
    let doc = parse_xml("<item><title>t</title><pubDate>yesterday</pubDate><enclosure url=\"u\" type=\"t\" length=\"1\"/></item>")
        .expect("xml");
    let root = &doc.nodes[doc.root];
    assert!(matches!(RssFeed::parse_item(&doc, root), Err(FeedParseError::Date)));

    let doc = parse_xml("<item><title>t</title><pubDate>Tue, 10 Jun 2003 04:00:00 GMT</pubDate></item>").expect("xml");
    let root = &doc.nodes[doc.root];
    assert!(matches!(RssFeed::parse_item(&doc, root), Err(FeedParseError::MissingField)));

    let doc = parse_xml("<item><title>t</title><enclosure url=\"u\" type=\"t\"/></item>").expect("xml");
    let root = &doc.nodes[doc.root];
    assert!(matches!(RssFeed::parse_item(&doc, root), Err(FeedParseError::Enclosure)));
}

#[test]
fn image_href_wins_over_url_child() {
    let doc = parse_xml("<image href=\"h\"><url>u</url></image>").expect("xml");
    let root = &doc.nodes[doc.root];
    assert_eq!(RssFeed::parse_image(&doc, root).as_deref(), Some("h"));
    let doc = parse_xml("<image><url>u</url></image>").expect("xml");
    let root = &doc.nodes[doc.root];
    assert_eq!(RssFeed::parse_image(&doc, root).as_deref(), Some("u"));
}

#[test]
fn xml_children_point_at_nodes() {
    let doc = parse_xml("<a x=\"1\"><b>text</b><c/></a>").expect("xml");
    let root = &doc.nodes[doc.root];
    assert_eq!(root.name, "a");
    assert_eq!(root.attribute("x").as_deref(), Some("1"));
    assert_eq!(root.children.len(), 2);
    let b = &doc.nodes[root.children[0]];
    assert_eq!(b.name, "b");
    assert_eq!(b.text.as_deref(), Some("text"));
    assert_eq!(doc.nodes[root.children[1]].name, "c");
}

#[test]
fn rfc2822_date_parses() {
    assert_eq!(
        parse_date("Tue, 10 Jun 2003 04:00:00 GMT"),
        Some(FeedDate { timestamp: 1055217600, nanos: 0, offset: 0 })
    );
}

#[test]
fn fallback_date_parses() {
    assert_eq!(
        parse_date("10 Jun 2003 14:30:00.250 +0200"),
        Some(FeedDate { timestamp: 1055248200, nanos: 250_000_000, offset: 7200 })
    );
}

#[test]
fn unknown_date_format_fails() {
    assert_eq!(parse_date("2003-06-10"), None);
}

#[test]
fn fallback_date_item_is_kept() {
    let item = "<item><title>F</title><pubDate>10 Jun 2003 14:30:00.250 +0200</pubDate>\
<enclosure url=\"u\" type=\"t\" length=\"5\"/></item>";
    let bad = "<item><title>G</title><pubDate>June 10th</pubDate>\
<enclosure url=\"u\" type=\"t\" length=\"5\"/></item>";
    let text = rss(&format!("<channel><title>S</title><description>d</description>{}{}</channel>", item, bad));
    let c = only_channel(&text);
    assert_eq!(c.items.len(), 1);
    assert_eq!(c.items[0].title, "F");
}

#[test]
fn integer_attribute_parsing() {
    assert_eq!(parse_i32("1234"), Some(1234));
    assert_eq!(parse_i32("-7"), Some(-7));
    assert_eq!(parse_i32("+7"), Some(7));
    assert_eq!(parse_i32(""), None);
    assert_eq!(parse_i32("2147483648"), None);
    assert_eq!(parse_i32(" 1"), None);
}

#[test]
fn trimming() {
    assert_eq!(trim("  a b \n"), "a b");
    assert_eq!(trim(""), "");
}

#[test]
fn empty_description_without_summary_skips_channel() {
    let text = rss("<channel><title>Show</title><description/></channel>\
<channel><title>Kept</title><description>d</description></channel>");
    let feed = RssFeed::parse(&text).expect("feed parses");
    assert_eq!(feed.channels.len(), 1);
    assert_eq!(feed.channels[0].title, "Kept");
}

#[test]
fn later_title_wins() {
    let text = rss("<channel><title>First</title><title>Second</title><description>d</description></channel>");
    let c = only_channel(&text);
    assert_eq!(c.title, "Second");
}
