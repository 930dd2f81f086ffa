use podcast_player_api::date::FeedDate;
use podcast_player_api::model::{at_most_one, exactly_one, Channel, FeedUrl, Item, RepoError};
use podcast_player_api::reconcile::{
    decide_channel, decide_item, ChannelDecision, FeedMerge, ItemDecision, MergeAction, MergeError,
    MergeEvent, MergeStage,
};
use podcast_player_api::rss_feed::RssFeed;
use podcast_player_api::worklist::{UrlWorklist, UrlWrite};

const FEED: u128 = 7;

/// Storage held in memory, with a count of each kind of write.
#[derive(Default)]
struct Store {
    channels: Vec<Channel>,
    items: Vec<Item>,
    next_id: u128,
    channel_creates: usize,
    channel_updates: usize,
    item_creates: usize,
    item_updates: usize,
}

impl Store {
    fn fresh(&mut self) -> u128 {
        self.next_id += 1;
        1000 + self.next_id
    }

    fn writes(&self) -> usize {
        self.channel_creates + self.channel_updates + self.item_creates + self.item_updates
    }

    fn merge(&mut self, feed: RssFeed) {
        let (mut m, mut action) = FeedMerge::new(FEED, feed);
        loop {
            let event = match action {
                MergeAction::Done => break,
                MergeAction::LookupChannel { title, feed_id } => MergeEvent::ChannelFound(
                    self.channels.iter().find(|c| c.title == title && c.feed_id == feed_id).cloned(),
                ),
                MergeAction::CreateChannel(n) => {
                    self.channel_creates += 1;
                    let c = Channel {
                        id: self.fresh(),
                        title: n.title,
                        description: n.description,
                        image: n.image,
                        feed_id: n.feed_id,
                    };
                    self.channels.push(c.clone());
                    MergeEvent::ChannelSaved(c)
                }
                MergeAction::UpdateChannel(c) => {
                    self.channel_updates += 1;
                    let row = self.channels.iter_mut().find(|r| r.id == c.id).expect("row");
                    *row = c.clone();
                    MergeEvent::ChannelSaved(c)
                }
                MergeAction::LookupItem { title, date, channel_id } => MergeEvent::ItemFound(
                    self.items
                        .iter()
                        .find(|i| i.title == title && i.date == date && i.channel_id == channel_id)
                        .cloned(),
                ),
                MergeAction::CreateItem(n) => {
                    self.item_creates += 1;
                    let i = Item {
                        id: self.fresh(),
                        title: n.title,
                        date: n.date,
                        enclosure_type: n.enclosure_type,
                        enclosure_url: n.enclosure_url,
                        enclosure_size: n.size,
                        channel_id: n.channel_id,
                    };
                    self.items.push(i);
                    MergeEvent::ItemSaved
                }
                MergeAction::UpdateItem(i) => {
                    self.item_updates += 1;
                    let row = self.items.iter_mut().find(|r| r.id == i.id).expect("row");
                    *row = i;
                    MergeEvent::ItemSaved
                }
            };
            action = m.step(event).expect("event answers the request");
        }
        assert_eq!(m.stage(), MergeStage::Finished);
    }
}

fn item(title: &str, url: &str) -> String {
    format!(
        "<item><title>{}</title><pubDate>Tue, 10 Jun 2003 04:00:00 GMT</pubDate>\
<enclosure url=\"{}\" type=\"audio/mpeg\" length=\"10\"/></item>",
        title, url
    )
}

fn channel(title: &str, image: &str, items: &[String]) -> String {
    format!(
        "<channel><title>{}</title><description>About {}</description><image><url>{}</url></image>{}</channel>",
        title,
        title,
        image,
        items.concat()
    )
}

fn feed(channels: &[String]) -> RssFeed {
    RssFeed::parse(&format!("<rss>{}</rss>", channels.concat())).expect("feed parses")
}

fn date() -> FeedDate {
    FeedDate { timestamp: 1055217600, nanos: 0, offset: 0 }
}

#[test]
fn first_merge_creates_everything() {
    let mut store = Store::default();
    store.merge(feed(&[channel("A", "i", &[item("a1", "u1"), item("a2", "u2")])]));
    assert_eq!(store.channel_creates, 1);
    assert_eq!(store.item_creates, 2);
    assert_eq!(store.channel_updates + store.item_updates, 0);
    assert!(store.items.iter().all(|i| i.channel_id == store.channels[0].id));
}

#[test]
fn second_merge_writes_nothing() {
    let mut store = Store::default();
    let text = [channel("A", "i", &[item("a1", "u1"), item("a2", "u2")]), channel("B", "j", &[item("b1", "v1")])];
    store.merge(feed(&text));
    let before = store.writes();
    store.merge(feed(&text));
    assert_eq!(store.writes(), before);
    assert_eq!(store.channels.len(), 2);
    assert_eq!(store.items.len(), 3);
}

#[test]
fn repeated_merges_keep_one_row_per_identity() {
    let mut store = Store::default();
    for url in ["u1", "u2", "u3"] {
        store.merge(feed(&[channel("A", "i", &[item("a1", url)])]));
    }
    assert_eq!(store.items.len(), 1);
    assert_eq!(store.items[0].enclosure_url, "u3");
    assert_eq!(store.item_creates, 1);
    assert_eq!(store.item_updates, 2);
}

#[test]
fn new_and_changed_channels() {
    let mut store = Store::default();
    store.merge(feed(&[channel("Old", "old.png", &[item("o1", "u1"), item("o2", "u2")])]));
    let old_id = store.channels[0].id;
    let before_items = store.items.len();
    let (cc, cu, ic, iu) = (store.channel_creates, store.channel_updates, store.item_creates, store.item_updates);

    store.merge(feed(&[
        channel("New", "n.png", &[item("n1", "x1"), item("n2", "x2")]),
        channel("Old", "new.png", &[item("o1", "u1"), item("o2", "u2")]),
    ]));
    assert_eq!(store.channel_creates - cc, 1);
    assert_eq!(store.channel_updates - cu, 1);
    assert_eq!(store.item_creates - ic, 2);
    assert_eq!(store.item_updates - iu, 0);
    assert_eq!(store.items.len(), before_items + 2);
    let old = store.channels.iter().find(|c| c.id == old_id).expect("old channel");
    assert_eq!(old.image.as_deref(), Some("new.png"));
}

#[test]
fn unexpected_event_is_refused() {
    let (mut m, action) = FeedMerge::new(FEED, feed(&[channel("A", "i", &[])]));
    assert!(matches!(action, MergeAction::LookupChannel { .. }));
    assert!(matches!(m.step(MergeEvent::ItemSaved), Err(MergeError::UnexpectedEvent)));
    assert_eq!(m.stage(), MergeStage::ChannelLookup);
}

#[test]
fn empty_feed_is_done_at_once() {
    let (m, action) = FeedMerge::new(FEED, feed(&[]));
    assert!(matches!(action, MergeAction::Done));
    assert_eq!(m.stage(), MergeStage::Finished);
}

#[test]
fn unchanged_channel_is_kept() {
    let f = feed(&[channel("A", "i", &[])]);
    let stored = Channel { id: 3, title: "A".into(), description: "About A".into(), image: Some("i".into()), feed_id: FEED };
    assert!(matches!(decide_channel(&f.channels[0], Some(stored), FEED), ChannelDecision::Keep(c) if c.id == 3));
    let changed = Channel { id: 3, title: "A".into(), description: "old".into(), image: Some("i".into()), feed_id: FEED };
    match decide_channel(&f.channels[0], Some(changed), FEED) {
        ChannelDecision::Update(c) => {
            assert_eq!(c.id, 3);
            assert_eq!(c.description, "About A");
        }
        _ => panic!("expected an update"),
    }
    assert!(matches!(decide_channel(&f.channels[0], None, FEED), ChannelDecision::Create(n) if n.title == "A" && n.feed_id == FEED));
}

#[test]
fn item_decisions() {
    let f = feed(&[channel("A", "i", &[item("a1", "u1")])]);
    let p = &f.channels[0].items[0];
    let stored = Item {
        id: 4,
        title: "a1".into(),
        date: date(),
        enclosure_type: "audio/mpeg".into(),
        enclosure_url: "u1".into(),
        enclosure_size: 10,
        channel_id: 9,
    };
    assert!(matches!(decide_item(p, Some(stored.clone()), 9), ItemDecision::Keep));
    let mut resized = stored.clone();
    resized.enclosure_size = 11;
    assert!(matches!(decide_item(p, Some(resized), 9), ItemDecision::Update(i) if i.enclosure_size == 10 && i.id == 4));
    match decide_item(p, None, 9) {
        ItemDecision::Create(n) => {
            assert_eq!(n.title, "a1");
            assert_eq!(n.channel_id, 9);
            assert_eq!(n.size, 10);
            assert_eq!(n.enclosure_url, "u1");
        }
        _ => panic!("expected a create"),
    }
}

#[test]
fn needs_update_compares_fields() {
    let c = Channel { id: 1, title: "t".into(), description: "d".into(), image: None, feed_id: 2 };
    assert!(!c.needs_update(&"d".to_string(), &None));
    assert!(c.needs_update(&"d".to_string(), &Some("x".to_string())));
    assert!(c.needs_update(&"e".to_string(), &None));
    let i = Item {
        id: 1,
        title: "t".into(),
        date: date(),
        enclosure_type: "a".into(),
        enclosure_url: "u".into(),
        enclosure_size: 3,
        channel_id: 2,
    };
    assert!(!i.needs_update(&"a".to_string(), &"u".to_string(), 3));
    assert!(i.needs_update(&"b".to_string(), &"u".to_string(), 3));
    assert!(i.needs_update(&"a".to_string(), &"v".to_string(), 3));
    assert!(i.needs_update(&"a".to_string(), &"u".to_string(), 4));
}

#[test]
fn row_counts() {
    assert_eq!(at_most_one::<u8>(vec![]), Ok(None));
    assert_eq!(at_most_one(vec![5u8]), Ok(Some(5)));
    assert_eq!(at_most_one(vec![5u8, 6]), Err(RepoError::Duplicate));
    assert_eq!(exactly_one(vec![5u8]), Ok(5));
    assert_eq!(exactly_one::<u8>(vec![]), Err(RepoError::RowCount));
    assert_eq!(exactly_one(vec![1u8, 2]), Err(RepoError::RowCount));
}

fn url_row(id: u128, url: &str) -> FeedUrl {
    FeedUrl { id, feed_id: FEED, url: url.into(), status: None, manual: false, synced: false, update_ts: date() }
}

#[test]
fn worklist_tries_smallest_id_first() {
    let mut w = UrlWorklist::new(FEED, vec![url_row(5, "http://b"), url_row(2, "http://a"), url_row(9, "http://c")]);
    assert_eq!(w.next_url().as_deref(), Some("http://a"));
    assert_eq!(w.next_url().as_deref(), Some("http://b"));
    assert_eq!(w.next_url().as_deref(), Some("http://c"));
    assert_eq!(w.next_url(), None);
}

#[test]
fn worklist_records_redirect_chain() {
    let mut w = UrlWorklist::new(FEED, vec![url_row(1, "http://old"), url_row(2, "http://mid")]);
    assert_eq!(w.next_url().as_deref(), Some("http://old"));
    let now = FeedDate { timestamp: 2000, nanos: 0, offset: 0 };
    let writes = vec![
        w.record("http://old".into(), 301, now, 100),
        w.record("http://mid".into(), 302, now, 101),
        w.record("http://new".into(), 200, now, 102),
    ];
    assert!(matches!(&writes[0], UrlWrite::Update(u) if u.id == 1 && u.status == Some(301) && u.update_ts == now));
    assert!(matches!(&writes[1], UrlWrite::Update(u) if u.id == 2 && u.status == Some(302)));
    assert!(matches!(&writes[2], UrlWrite::Create(u) if u.id == 102 && u.url == "http://new" && u.status == Some(200) && !u.manual && u.feed_id == FEED));
    assert_eq!(w.known().len(), 3);
    // every visited URL is resolved for this round
    assert_eq!(w.next_url(), None);
}

#[test]
fn worklist_does_not_duplicate_new_urls() {
    let mut w = UrlWorklist::new(FEED, vec![url_row(1, "http://a")]);
    let now = date();
    assert!(matches!(w.record("http://new".into(), 404, now, 50), UrlWrite::Create(_)));
    assert!(matches!(w.record("http://new".into(), 200, now, 51), UrlWrite::Update(u) if u.id == 50 && u.status == Some(200)));
    assert_eq!(w.known().len(), 2);
}
