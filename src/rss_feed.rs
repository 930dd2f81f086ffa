//! Lenient mapping of an RSS document onto channels, items and enclosures.
//!
//! A channel needs a title and a description (or an iTunes summary); an item
//! needs a title, a readable publication date and a complete enclosure. An
//! item that lacks any of these is skipped, and so is such a channel, without
//! touching its siblings.

use crate::date::{date_of, parse_date, FeedDate};
use crate::text::{decimal_i32, parse_i32, trim, trimmed};
use crate::xml::{
    attribute_of, child_of, copy_text, opt_chars, parse_xml, xml_document_of, XmlDocument,
    XmlDocumentModel, XmlNode, XmlNodeModel,
};
use vstd::prelude::*;

verus! {

/// Namespace of the iTunes podcast elements.
pub const ITUNES_NAMESPACE: &'static str = "http://www.itunes.com/dtds/podcast-1.0.dtd";

/// Why a document, a channel or an item could not be read.
#[derive(Clone, Copy, Debug, PartialEq, Eq, Structural)]
pub enum FeedParseError {
    /// The text is not well-formed XML.
    Xml,
    /// A required element is missing.
    MissingField,
    /// An enclosure lacks `url`, `type` or `length`, or its length is no integer.
    Enclosure,
    /// The publication date is in no accepted format.
    Date,
}

/// The media file attached to an item.
pub struct RssEnclosure {
    pub url: String,
    pub mime_type: String,
    pub length: i32,
}

pub struct RssItem {
    pub date: FeedDate,
    pub title: String,
    pub enclosure: RssEnclosure,
}

pub struct RssChannel {
    pub title: String,
    pub description: String,
    pub image: Option<String>,
    pub items: Vec<RssItem>,
}

pub struct RssFeed {
    pub channels: Vec<RssChannel>,
}

pub struct RssEnclosureModel {
    pub url: Seq<char>,
    pub mime_type: Seq<char>,
    pub length: i32,
}

pub struct RssItemModel {
    pub date: FeedDate,
    pub title: Seq<char>,
    pub enclosure: RssEnclosureModel,
}

pub struct RssChannelModel {
    pub title: Seq<char>,
    pub description: Seq<char>,
    pub image: Option<Seq<char>>,
    pub items: Seq<RssItemModel>,
}

pub struct RssFeedModel {
    pub channels: Seq<RssChannelModel>,
}

impl View for RssEnclosure {
    type V = RssEnclosureModel;

    open spec fn view(&self) -> RssEnclosureModel {
        RssEnclosureModel { url: self.url@, mime_type: self.mime_type@, length: self.length }
    }
}

impl View for RssItem {
    type V = RssItemModel;

    open spec fn view(&self) -> RssItemModel {
        RssItemModel { date: self.date, title: self.title@, enclosure: self.enclosure@ }
    }
}

impl View for RssChannel {
    type V = RssChannelModel;

    open spec fn view(&self) -> RssChannelModel {
        RssChannelModel {
            title: self.title@,
            description: self.description@,
            image: opt_chars(self.image),
            items: self.items@.map_values(|i: RssItem| i@),
        }
    }
}

impl View for RssFeed {
    type V = RssFeedModel;

    open spec fn view(&self) -> RssFeedModel {
        RssFeedModel { channels: self.channels@.map_values(|c: RssChannel| c@) }
    }
}

/// The enclosure an element describes by its `url`, `type` and `length` attributes.
pub open spec fn enclosure_of(n: XmlNodeModel) -> Result<RssEnclosureModel, FeedParseError> {
    match (attribute_of(n, "url"@), attribute_of(n, "type"@), attribute_of(n, "length"@)) {
        (Some(url), Some(mime_type), Some(length)) => match decimal_i32(length) {
            Some(v) => Ok(RssEnclosureModel { url, mime_type, length: v }),
            None => Err(FeedParseError::Enclosure),
        },
        _ => Err(FeedParseError::Enclosure),
    }
}

/// What an item's first `k` children provide; `failed` once an enclosure was unreadable.
pub struct ItemScan {
    pub title: Option<Seq<char>>,
    pub date: Option<Seq<char>>,
    pub enclosure: Option<RssEnclosureModel>,
    pub failed: bool,
}

pub open spec fn item_scan(d: XmlDocumentModel, n: XmlNodeModel, k: int) -> ItemScan
    decreases k,
{
    if k <= 0 {
        ItemScan { title: None, date: None, enclosure: None, failed: false }
    } else {
        let s = item_scan(d, n, k - 1);
        match child_of(d, n, k - 1) {
            Some(c) => if s.failed {
                s
            } else if c.name == "title"@ {
                ItemScan { title: c.text, ..s }
            } else if c.name == "pubDate"@ {
                ItemScan { date: c.text, ..s }
            } else if c.name == "enclosure"@ {
                match enclosure_of(c) {
                    Ok(e) => ItemScan { enclosure: Some(e), ..s },
                    Err(_) => ItemScan { failed: true, ..s },
                }
            } else {
                s
            },
            None => s,
        }
    }
}

/// The item an element describes.
pub open spec fn item_of(d: XmlDocumentModel, n: XmlNodeModel) -> Result<RssItemModel, FeedParseError> {
    let s = item_scan(d, n, n.children.len() as int);
    if s.failed {
        Err(FeedParseError::Enclosure)
    } else {
        match (s.title, s.date, s.enclosure) {
            (Some(title), Some(date), Some(enclosure)) => match date_of(date) {
                Some(date) => Ok(RssItemModel { date, title, enclosure }),
                None => Err(FeedParseError::Date),
            },
            _ => Err(FeedParseError::MissingField),
        }
    }
}

/// The text of the last `url` child among the first `k` children of an image element.
pub open spec fn image_url_scan(d: XmlDocumentModel, n: XmlNodeModel, k: int) -> Option<Seq<char>>
    decreases k,
{
    if k <= 0 {
        None
    } else {
        match child_of(d, n, k - 1) {
            Some(c) => if c.name == "url"@ {
                c.text
            } else {
                image_url_scan(d, n, k - 1)
            },
            None => image_url_scan(d, n, k - 1),
        }
    }
}

/// An image element's location: its `href` attribute, else its `url` child.
pub open spec fn image_of(d: XmlDocumentModel, n: XmlNodeModel) -> Option<Seq<char>> {
    match attribute_of(n, "href"@) {
        Some(h) => Some(h),
        None => image_url_scan(d, n, n.children.len() as int),
    }
}

/// Trims an optional text.
pub open spec fn opt_trimmed(o: Option<Seq<char>>) -> Option<Seq<char>> {
    match o {
        Some(t) => Some(trimmed(t)),
        None => None,
    }
}

/// What a channel's first `k` children provide.
pub struct ChannelScan {
    pub title: Option<Seq<char>>,
    pub description: Option<Seq<char>>,
    pub summary: Option<Seq<char>>,
    pub image: Option<Seq<char>>,
    pub items: Seq<RssItemModel>,
}

pub open spec fn is_itunes_summary(c: XmlNodeModel) -> bool {
    c.namespace == Some(ITUNES_NAMESPACE@) && c.name == "summary"@
}

pub open spec fn channel_scan(d: XmlDocumentModel, n: XmlNodeModel, k: int) -> ChannelScan
    decreases k,
{
    if k <= 0 {
        ChannelScan { title: None, description: None, summary: None, image: None, items: seq![] }
    } else {
        let s = channel_scan(d, n, k - 1);
        match child_of(d, n, k - 1) {
            Some(c) => if c.name == "title"@ {
                ChannelScan { title: c.text, ..s }
            } else if c.name == "description"@ {
                ChannelScan { description: opt_trimmed(c.text), ..s }
            } else if is_itunes_summary(c) {
                ChannelScan { summary: opt_trimmed(c.text), ..s }
            } else if c.name == "image"@ {
                ChannelScan { image: image_of(d, c), ..s }
            } else if c.name == "item"@ {
                match item_of(d, c) {
                    Ok(i) => ChannelScan { items: s.items.push(i), ..s },
                    Err(_) => s,
                }
            } else {
                s
            },
            None => s,
        }
    }
}

/// The channel an element describes: the description falls back to the
/// iTunes summary where the channel has none.
pub open spec fn channel_of(d: XmlDocumentModel, n: XmlNodeModel) -> Result<
    RssChannelModel,
    FeedParseError,
> {
    let s = channel_scan(d, n, n.children.len() as int);
    let description = match s.description {
        Some(t) => Some(t),
        None => s.summary,
    };
    match (s.title, description) {
        (Some(title), Some(description)) => Ok(
            RssChannelModel { title, description, image: s.image, items: s.items },
        ),
        _ => Err(FeedParseError::MissingField),
    }
}

/// The readable channels among the first `k` nodes of a document.
pub open spec fn channels_scan(d: XmlDocumentModel, k: int) -> Seq<RssChannelModel>
    decreases k,
{
    if k <= 0 || k > d.nodes.len() {
        seq![]
    } else {
        let s = channels_scan(d, k - 1);
        let n = d.nodes[k - 1];
        if n.name == "channel"@ {
            match channel_of(d, n) {
                Ok(c) => s.push(c),
                Err(_) => s,
            }
        } else {
            s
        }
    }
}

/// The feed a document describes: the root element itself where it is a
/// channel, else every channel element of the document.
pub open spec fn feed_of(d: XmlDocumentModel) -> RssFeedModel {
    if d.root < d.nodes.len() && d.nodes[d.root as int].name == "channel"@ {
        match channel_of(d, d.nodes[d.root as int]) {
            Ok(c) => RssFeedModel { channels: seq![c] },
            Err(_) => RssFeedModel { channels: seq![] },
        }
    } else {
        RssFeedModel { channels: channels_scan(d, d.nodes.len() as int) }
    }
}

/// The feed a text describes.
pub open spec fn parse_spec(text: Seq<char>) -> Result<RssFeedModel, FeedParseError> {
    match xml_document_of(text) {
        Some(d) => Ok(feed_of(d)),
        None => Err(FeedParseError::Xml),
    }
}

pub open spec fn opt_enclosure(o: Option<RssEnclosure>) -> Option<RssEnclosureModel> {
    match o {
        Some(e) => Some(e@),
        None => None,
    }
}

pub open spec fn enclosure_result(r: Result<RssEnclosure, FeedParseError>) -> Result<
    RssEnclosureModel,
    FeedParseError,
> {
    match r {
        Ok(e) => Ok(e@),
        Err(e) => Err(e),
    }
}

pub open spec fn item_result(r: Result<RssItem, FeedParseError>) -> Result<RssItemModel, FeedParseError> {
    match r {
        Ok(i) => Ok(i@),
        Err(e) => Err(e),
    }
}

pub open spec fn channel_result(r: Result<RssChannel, FeedParseError>) -> Result<
    RssChannelModel,
    FeedParseError,
> {
    match r {
        Ok(c) => Ok(c@),
        Err(e) => Err(e),
    }
}

pub open spec fn feed_result(r: Result<RssFeed, FeedParseError>) -> Result<RssFeedModel, FeedParseError> {
    match r {
        Ok(f) => Ok(f@),
        Err(e) => Err(e),
    }
}

fn trim_text(o: &Option<String>) -> (r: Option<String>)
    ensures
        opt_chars(r) == opt_trimmed(opt_chars(*o)),
{
    match o {
        Some(t) => Some(trim(t.as_str())),
        None => None,
    }
}

/// An item element without any `enclosure` child cannot be read.
pub proof fn lemma_item_without_enclosure(d: XmlDocumentModel, n: XmlNodeModel)
    requires
        forall|k: int|
            #![trigger child_of(d, n, k)]
            0 <= k < n.children.len() && child_of(d, n, k) is Some ==> child_of(
                d,
                n,
                k,
            )->Some_0.name != "enclosure"@,
    ensures
        item_of(d, n) is Err,
{
    lemma_item_scan_no_enclosure(d, n, n.children.len() as int);
}

proof fn lemma_item_scan_no_enclosure(d: XmlDocumentModel, n: XmlNodeModel, k: int)
    requires
        k <= n.children.len(),
        forall|j: int|
            #![trigger child_of(d, n, j)]
            0 <= j < n.children.len() && child_of(d, n, j) is Some ==> child_of(
                d,
                n,
                j,
            )->Some_0.name != "enclosure"@,
    ensures
        !item_scan(d, n, k).failed,
        item_scan(d, n, k).enclosure is None,
    decreases k,
{
    if k > 0 {
        lemma_item_scan_no_enclosure(d, n, k - 1);
    }
}

/// An item child that cannot be read leaves the channel as it was: the items
/// read so far, and everything else, stay unchanged.
pub proof fn lemma_unreadable_item_skipped(d: XmlDocumentModel, n: XmlNodeModel, k: int)
    requires
        0 <= k < n.children.len(),
        child_of(d, n, k) is Some,
        child_of(d, n, k)->Some_0.name == "item"@,
        item_of(d, child_of(d, n, k)->Some_0) is Err,
    ensures
        channel_scan(d, n, k + 1) == channel_scan(d, n, k),
{
    reveal_strlit("item");
    reveal_strlit("title");
    reveal_strlit("description");
    reveal_strlit("summary");
    reveal_strlit("image");
    let c = child_of(d, n, k)->Some_0;
    assert(c.name != "title"@ && c.name != "description"@ && c.name != "image"@) by {
        assert(c.name[1] == 't');
    }
    assert(!is_itunes_summary(c)) by {
        assert(c.name.len() != "summary"@.len());
    }
}

/// A readable item child is appended to the channel's items.
pub proof fn lemma_readable_item_kept(d: XmlDocumentModel, n: XmlNodeModel, k: int)
    requires
        0 <= k < n.children.len(),
        child_of(d, n, k) is Some,
        child_of(d, n, k)->Some_0.name == "item"@,
        item_of(d, child_of(d, n, k)->Some_0) is Ok,
    ensures
        channel_scan(d, n, k + 1).items == channel_scan(d, n, k).items.push(
            item_of(d, child_of(d, n, k)->Some_0)->Ok_0,
        ),
{
    reveal_strlit("item");
    reveal_strlit("title");
    reveal_strlit("description");
    reveal_strlit("summary");
    reveal_strlit("image");
    let c = child_of(d, n, k)->Some_0;
    assert(c.name != "title"@ && c.name != "description"@ && c.name != "image"@) by {
        assert(c.name[1] == 't');
    }
    assert(!is_itunes_summary(c)) by {
        assert(c.name.len() != "summary"@.len());
    }
}

/// A channel with a title and an iTunes summary but no `description` child
/// takes the trimmed summary as its description.
pub proof fn lemma_summary_fallback(d: XmlDocumentModel, n: XmlNodeModel)
    requires
        forall|k: int|
            #![trigger child_of(d, n, k)]
            0 <= k < n.children.len() && child_of(d, n, k) is Some ==> child_of(
                d,
                n,
                k,
            )->Some_0.name != "description"@,
        channel_scan(d, n, n.children.len() as int).title is Some,
        channel_scan(d, n, n.children.len() as int).summary is Some,
    ensures
        channel_of(d, n) is Ok,
        channel_of(d, n)->Ok_0.description == channel_scan(
            d,
            n,
            n.children.len() as int,
        ).summary->Some_0,
{
    lemma_channel_scan_no_description(d, n, n.children.len() as int);
}

proof fn lemma_channel_scan_no_description(d: XmlDocumentModel, n: XmlNodeModel, k: int)
    requires
        k <= n.children.len(),
        forall|j: int|
            #![trigger child_of(d, n, j)]
            0 <= j < n.children.len() && child_of(d, n, j) is Some ==> child_of(
                d,
                n,
                j,
            )->Some_0.name != "description"@,
    ensures
        channel_scan(d, n, k).description is None,
    decreases k,
{
    if k > 0 {
        lemma_channel_scan_no_description(d, n, k - 1);
    }
}

impl RssFeed {
    /// Reads a feed from the text of an XML document.
    pub fn parse(text: &str) -> (r: Result<RssFeed, FeedParseError>)
        ensures
            feed_result(r) == parse_spec(text@),
    {
        match parse_xml(text) {
            Some(doc) => Ok(Self::parse_root(&doc)),
            None => Err(FeedParseError::Xml),
        }
    }

    /// Collects the readable channels of a document.
    pub fn parse_root(doc: &XmlDocument) -> (r: RssFeed)
        ensures
            r@ == feed_of(doc@),
    {
        let mut channels: Vec<RssChannel> = Vec::new();
        let root = doc.root;
        if root < doc.nodes.len() && doc.nodes[root].has_name("channel") {
            match Self::parse_channel(doc, &doc.nodes[root]) {
                Ok(c) => channels.push(c),
                Err(_) => {},
            }
            proof {
                assert(channels@.map_values(|c: RssChannel| c@) =~= feed_of(doc@).channels);
            }
            return RssFeed { channels };
        }
        let n = doc.nodes.len();
        let mut k: usize = 0;
        while k < n
            invariant
                n == doc.nodes@.len(),
                k <= n,
                channels@.map_values(|c: RssChannel| c@) == channels_scan(doc@, k as int),
            decreases n - k,
        {
            let node = &doc.nodes[k];
            if node.has_name("channel") {
                match Self::parse_channel(doc, node) {
                    Ok(c) => {
                        let ghost before = channels@;
                        channels.push(c);
                        proof {
                            assert(channels@.map_values(|c: RssChannel| c@) =~= before.map_values(
                                |c: RssChannel| c@,
                            ).push(c@));
                        }
                    },
                    Err(_) => {},
                }
            }
            k = k + 1;
        }
        RssFeed { channels }
    }

    /// Reads one channel; an item that cannot be read is left out.
    pub fn parse_channel(doc: &XmlDocument, channel: &XmlNode) -> (r: Result<RssChannel, FeedParseError>)
        ensures
            channel_result(r) == channel_of(doc@, channel@),
    {
        let mut title: Option<String> = None;
        let mut description: Option<String> = None;
        let mut summary: Option<String> = None;
        let mut image: Option<String> = None;
        let mut items: Vec<RssItem> = Vec::new();
        let n = channel.children.len();
        let mut k: usize = 0;
        assert(items@.map_values(|i: RssItem| i@) =~= seq![]);
        while k < n
            invariant
                n == channel.children@.len(),
                k <= n,
                (ChannelScan {
                    title: opt_chars(title),
                    description: opt_chars(description),
                    summary: opt_chars(summary),
                    image: opt_chars(image),
                    items: items@.map_values(|i: RssItem| i@),
                }) == channel_scan(doc@, channel@, k as int),
            decreases n - k,
        {
            match doc.child(channel, k) {
                Some(c) => {
                    if c.has_name("title") {
                        title = copy_text(&c.text);
                    } else if c.has_name("description") {
                        description = trim_text(&c.text);
                    } else if c.has_namespace(ITUNES_NAMESPACE) && c.has_name("summary") {
                        summary = trim_text(&c.text);
                    } else if c.has_name("image") {
                        image = Self::parse_image(doc, c);
                    } else if c.has_name("item") {
                        match Self::parse_item(doc, c) {
                            Ok(i) => {
                                let ghost before = items@;
                                items.push(i);
                                proof {
                                    assert(items@.map_values(|i: RssItem| i@) =~= before.map_values(
                                        |i: RssItem| i@,
                                    ).push(i@));
                                }
                            },
                            Err(_) => {},
                        }
                    }
                },
                None => {},
            }
            k = k + 1;
        }
        let description = match description {
            Some(d) => Some(d),
            None => summary,
        };
        match (title, description) {
            (Some(title), Some(description)) => Ok(RssChannel { title, description, image, items }),
            _ => Err(FeedParseError::MissingField),
        }
    }

    /// Reads where an image element points: its `href`, else its `url` child.
    pub fn parse_image(doc: &XmlDocument, image: &XmlNode) -> (r: Option<String>)
        ensures
            opt_chars(r) == image_of(doc@, image@),
    {
        let href = image.attribute("href");
        if href.is_some() {
            return href;
        }
        let mut url: Option<String> = None;
        let n = image.children.len();
        let mut k: usize = 0;
        while k < n
            invariant
                n == image.children@.len(),
                k <= n,
                opt_chars(url) == image_url_scan(doc@, image@, k as int),
            decreases n - k,
        {
            match doc.child(image, k) {
                Some(c) => {
                    if c.has_name("url") {
                        url = copy_text(&c.text);
                    }
                },
                None => {},
            }
            k = k + 1;
        }
        url
    }

    /// Reads one item: title, publication date and enclosure are all required.
    pub fn parse_item(doc: &XmlDocument, item: &XmlNode) -> (r: Result<RssItem, FeedParseError>)
        ensures
            item_result(r) == item_of(doc@, item@),
    {
        let mut title: Option<String> = None;
        let mut date: Option<String> = None;
        let mut enclosure: Option<RssEnclosure> = None;
        let mut failed = false;
        let n = item.children.len();
        let mut k: usize = 0;
        while k < n
            invariant
                n == item.children@.len(),
                k <= n,
                (ItemScan {
                    title: opt_chars(title),
                    date: opt_chars(date),
                    enclosure: opt_enclosure(enclosure),
                    failed,
                }) == item_scan(doc@, item@, k as int),
            decreases n - k,
        {
            match doc.child(item, k) {
                Some(c) => {
                    if failed {
                    } else if c.has_name("title") {
                        title = copy_text(&c.text);
                    } else if c.has_name("pubDate") {
                        date = copy_text(&c.text);
                    } else if c.has_name("enclosure") {
                        match Self::parse_enclosure(c) {
                            Ok(e) => enclosure = Some(e),
                            Err(_) => failed = true,
                        }
                    }
                },
                None => {},
            }
            k = k + 1;
        }
        if failed {
            return Err(FeedParseError::Enclosure);
        }
        match (title, date, enclosure) {
            (Some(title), Some(date), Some(enclosure)) => match parse_date(date.as_str()) {
                Some(date) => Ok(RssItem { date, title, enclosure }),
                None => Err(FeedParseError::Date),
            },
            _ => Err(FeedParseError::MissingField),
        }
    }

    /// Reads an enclosure from its `url`, `type` and `length` attributes.
    pub fn parse_enclosure(enclosure: &XmlNode) -> (r: Result<RssEnclosure, FeedParseError>)
        ensures
            enclosure_result(r) == enclosure_of(enclosure@),
    {
        match (enclosure.attribute("url"), enclosure.attribute("type"), enclosure.attribute("length")) {
            (Some(url), Some(mime_type), Some(length)) => match parse_i32(length.as_str()) {
                Some(length) => Ok(RssEnclosure { url, mime_type, length }),
                None => Err(FeedParseError::Enclosure),
            },
            _ => Err(FeedParseError::Enclosure),
        }
    }
}

} // verus!
