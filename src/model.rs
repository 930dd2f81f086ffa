//! Stored rows: feeds, the URLs they were reached by, channels and items.
//!
//! Identifiers are 128-bit values; timestamps are [`FeedDate`]s.

use crate::date::FeedDate;
use crate::text::str_eq;
use crate::xml::opt_chars;
use vstd::prelude::*;

verus! {

/// A subscribed feed.
pub struct Feed {
    pub id: u128,
    pub title: String,
    pub update_ts: FeedDate,
}

/// A URL through which a feed was reached, with the last status seen there.
pub struct FeedUrl {
    pub id: u128,
    pub feed_id: u128,
    pub url: String,
    pub status: Option<u16>,
    /// Entered by an operator; such a row is only ever refreshed.
    pub manual: bool,
    pub synced: bool,
    pub update_ts: FeedDate,
}

/// A stored channel; `(title, feed_id)` identifies it.
pub struct Channel {
    pub id: u128,
    pub title: String,
    pub description: String,
    pub image: Option<String>,
    pub feed_id: u128,
}

/// A stored item; `(title, date, channel_id)` identifies it.
pub struct Item {
    pub id: u128,
    pub title: String,
    pub date: FeedDate,
    pub enclosure_type: String,
    pub enclosure_url: String,
    pub enclosure_size: i32,
    pub channel_id: u128,
}

pub struct FeedUrlModel {
    pub id: u128,
    pub feed_id: u128,
    pub url: Seq<char>,
    pub status: Option<u16>,
    pub manual: bool,
    pub synced: bool,
    pub update_ts: FeedDate,
}

pub struct ChannelModel {
    pub id: u128,
    pub title: Seq<char>,
    pub description: Seq<char>,
    pub image: Option<Seq<char>>,
    pub feed_id: u128,
}

pub struct ItemModel {
    pub id: u128,
    pub title: Seq<char>,
    pub date: FeedDate,
    pub enclosure_type: Seq<char>,
    pub enclosure_url: Seq<char>,
    pub enclosure_size: i32,
    pub channel_id: u128,
}

impl View for FeedUrl {
    type V = FeedUrlModel;

    open spec fn view(&self) -> FeedUrlModel {
        FeedUrlModel {
            id: self.id,
            feed_id: self.feed_id,
            url: self.url@,
            status: self.status,
            manual: self.manual,
            synced: self.synced,
            update_ts: self.update_ts,
        }
    }
}

impl View for Channel {
    type V = ChannelModel;

    open spec fn view(&self) -> ChannelModel {
        ChannelModel {
            id: self.id,
            title: self.title@,
            description: self.description@,
            image: opt_chars(self.image),
            feed_id: self.feed_id,
        }
    }
}

impl View for Item {
    type V = ItemModel;

    open spec fn view(&self) -> ItemModel {
        ItemModel {
            id: self.id,
            title: self.title@,
            date: self.date,
            enclosure_type: self.enclosure_type@,
            enclosure_url: self.enclosure_url@,
            enclosure_size: self.enclosure_size,
            channel_id: self.channel_id,
        }
    }
}

/// Whether two optional strings hold the same characters.
pub fn opt_text_eq(a: &Option<String>, b: &Option<String>) -> (r: bool)
    ensures
        r == (opt_chars(*a) == opt_chars(*b)),
{
    match (a, b) {
        (Some(x), Some(y)) => str_eq(x.as_str(), y.as_str()),
        (None, None) => true,
        _ => false,
    }
}

impl Clone for FeedUrl {
    fn clone(&self) -> (r: FeedUrl)
        ensures
            r@ == self@,
    {
        FeedUrl {
            id: self.id,
            feed_id: self.feed_id,
            url: self.url.clone(),
            status: self.status,
            manual: self.manual,
            synced: self.synced,
            update_ts: self.update_ts,
        }
    }
}

impl Clone for Channel {
    fn clone(&self) -> (r: Channel)
        ensures
            r@ == self@,
    {
        Channel {
            id: self.id,
            title: self.title.clone(),
            description: self.description.clone(),
            image: crate::xml::copy_text(&self.image),
            feed_id: self.feed_id,
        }
    }
}

impl Clone for Item {
    fn clone(&self) -> (r: Item)
        ensures
            r@ == self@,
    {
        Item {
            id: self.id,
            title: self.title.clone(),
            date: self.date,
            enclosure_type: self.enclosure_type.clone(),
            enclosure_url: self.enclosure_url.clone(),
            enclosure_size: self.enclosure_size,
            channel_id: self.channel_id,
        }
    }
}

impl Channel {
    /// Whether the stored description or image differ from the given ones.
    pub fn needs_update(&self, description: &String, image: &Option<String>) -> (r: bool)
        ensures
            r == !(self.description@ == description@ && opt_chars(self.image) == opt_chars(
                *image,
            )),
    {
        if str_eq(self.description.as_str(), description.as_str()) && opt_text_eq(&self.image, image) {
            false
        } else {
            true
        }
    }
}

impl Item {
    /// Whether the stored enclosure type, URL or size differ from the given ones.
    pub fn needs_update(&self, enclosure_type: &String, enclosure_url: &String, size: i32) -> (r:
        bool)
        ensures
            r == !(self.enclosure_type@ == enclosure_type@ && self.enclosure_url@
                == enclosure_url@ && self.enclosure_size == size),
    {
        if str_eq(self.enclosure_type.as_str(), enclosure_type.as_str()) && str_eq(
            self.enclosure_url.as_str(),
            enclosure_url.as_str(),
        )
            && self.enclosure_size == size {
            false
        } else {
            true
        }
    }
}

/// Why the storage could not serve a request.
#[derive(Clone, Copy, Debug, PartialEq, Eq, Structural)]
pub enum RepoError {
    /// The store was unreachable or refused the statement.
    Storage,
    /// A lookup by identity found more than one row.
    Duplicate,
    /// A write that returns its row returned none or several.
    RowCount,
}

/// The row of a lookup by identity: none, one, or a consistency error.
pub fn at_most_one<T>(rows: Vec<T>) -> (r: Result<Option<T>, RepoError>)
    ensures
        rows@.len() == 0 ==> r == Ok::<Option<T>, RepoError>(None),
        rows@.len() == 1 ==> r == Ok::<Option<T>, RepoError>(Some(rows@[0])),
        rows@.len() > 1 ==> r == Err::<Option<T>, RepoError>(RepoError::Duplicate),
{
    let mut rows = rows;
    if rows.len() > 1 {
        Err(RepoError::Duplicate)
    } else {
        Ok(rows.pop())
    }
}

/// The row a write returns: exactly one, else a consistency error.
pub fn exactly_one<T>(rows: Vec<T>) -> (r: Result<T, RepoError>)
    ensures
        rows@.len() == 1 ==> r == Ok::<T, RepoError>(rows@[0]),
        rows@.len() != 1 ==> r == Err::<T, RepoError>(RepoError::RowCount),
{
    let mut rows = rows;
    if rows.len() == 1 {
        match rows.pop() {
            Some(row) => Ok(row),
            None => Err(RepoError::RowCount),
        }
    } else {
        Err(RepoError::RowCount)
    }
}

} // verus!
