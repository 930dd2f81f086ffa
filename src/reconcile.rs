//! Merging a parsed feed into storage with as few writes as possible.
//!
//! A channel is looked up by `(title, feed_id)` and an item by
//! `(title, date, channel_id)`. What is missing is created; what differs in
//! its mutable fields is updated in place; what is equal is left alone.
//!
//! [`FeedMerge`] walks a parsed feed one storage request at a time: every
//! [`MergeAction`] it answers is carried out by the caller, who hands the
//! outcome back as a [`MergeEvent`].

use crate::date::FeedDate;
use crate::model::{Channel, ChannelModel, Item, ItemModel};
use crate::rss_feed::{RssChannel, RssChannelModel, RssFeed, RssItem, RssItemModel};
use crate::xml::{copy_text, opt_chars};
use vstd::prelude::*;

verus! {

/// A channel to be created.
pub struct NewChannel {
    pub title: String,
    pub description: String,
    pub image: Option<String>,
    pub feed_id: u128,
}

/// An item to be created.
pub struct NewItem {
    pub title: String,
    pub date: FeedDate,
    pub enclosure_type: String,
    pub enclosure_url: String,
    pub channel_id: u128,
    pub size: i32,
}

pub struct NewChannelModel {
    pub title: Seq<char>,
    pub description: Seq<char>,
    pub image: Option<Seq<char>>,
    pub feed_id: u128,
}

pub struct NewItemModel {
    pub title: Seq<char>,
    pub date: FeedDate,
    pub enclosure_type: Seq<char>,
    pub enclosure_url: Seq<char>,
    pub channel_id: u128,
    pub size: i32,
}

impl View for NewChannel {
    type V = NewChannelModel;

    open spec fn view(&self) -> NewChannelModel {
        NewChannelModel {
            title: self.title@,
            description: self.description@,
            image: opt_chars(self.image),
            feed_id: self.feed_id,
        }
    }
}

impl View for NewItem {
    type V = NewItemModel;

    open spec fn view(&self) -> NewItemModel {
        NewItemModel {
            title: self.title@,
            date: self.date,
            enclosure_type: self.enclosure_type@,
            enclosure_url: self.enclosure_url@,
            channel_id: self.channel_id,
            size: self.size,
        }
    }
}

pub open spec fn opt_channel(o: Option<Channel>) -> Option<ChannelModel> {
    match o {
        Some(c) => Some(c@),
        None => None,
    }
}

pub open spec fn opt_item(o: Option<Item>) -> Option<ItemModel> {
    match o {
        Some(i) => Some(i@),
        None => None,
    }
}

/// What to do with a parsed channel, given the stored one.
pub enum ChannelDecision {
    Create(NewChannel),
    Update(Channel),
    /// The stored channel is current.
    Keep(Channel),
}

pub enum ChannelDecisionModel {
    Create(NewChannelModel),
    Update(ChannelModel),
    Keep(ChannelModel),
}

impl View for ChannelDecision {
    type V = ChannelDecisionModel;

    open spec fn view(&self) -> ChannelDecisionModel {
        match self {
            ChannelDecision::Create(n) => ChannelDecisionModel::Create(n@),
            ChannelDecision::Update(c) => ChannelDecisionModel::Update(c@),
            ChannelDecision::Keep(c) => ChannelDecisionModel::Keep(c@),
        }
    }
}

/// What to do with a parsed item, given the stored one.
pub enum ItemDecision {
    Create(NewItem),
    Update(Item),
    /// The stored item is current.
    Keep,
}

pub enum ItemDecisionModel {
    Create(NewItemModel),
    Update(ItemModel),
    Keep,
}

impl View for ItemDecision {
    type V = ItemDecisionModel;

    open spec fn view(&self) -> ItemDecisionModel {
        match self {
            ItemDecision::Create(n) => ItemDecisionModel::Create(n@),
            ItemDecision::Update(i) => ItemDecisionModel::Update(i@),
            ItemDecision::Keep => ItemDecisionModel::Keep,
        }
    }
}

/// A missing channel is created; a stored one whose description or image
/// differ is updated in place, keeping its id, title and feed; else it is kept.
pub open spec fn channel_decision(
    p: RssChannelModel,
    stored: Option<ChannelModel>,
    feed_id: u128,
) -> ChannelDecisionModel {
    match stored {
        None => ChannelDecisionModel::Create(
            NewChannelModel { title: p.title, description: p.description, image: p.image, feed_id },
        ),
        Some(c) => if c.description == p.description && c.image == p.image {
            ChannelDecisionModel::Keep(c)
        } else {
            ChannelDecisionModel::Update(
                ChannelModel { description: p.description, image: p.image, ..c },
            )
        },
    }
}

/// A missing item is created; a stored one whose enclosure type, URL or size
/// differ is updated in place, keeping its identity; else it is kept.
pub open spec fn item_decision(
    p: RssItemModel,
    stored: Option<ItemModel>,
    channel_id: u128,
) -> ItemDecisionModel {
    match stored {
        None => ItemDecisionModel::Create(
            NewItemModel {
                title: p.title,
                date: p.date,
                enclosure_type: p.enclosure.mime_type,
                enclosure_url: p.enclosure.url,
                channel_id,
                size: p.enclosure.length,
            },
        ),
        Some(i) => if i.enclosure_type == p.enclosure.mime_type && i.enclosure_url
            == p.enclosure.url && i.enclosure_size == p.enclosure.length {
            ItemDecisionModel::Keep
        } else {
            ItemDecisionModel::Update(
                ItemModel {
                    enclosure_type: p.enclosure.mime_type,
                    enclosure_url: p.enclosure.url,
                    enclosure_size: p.enclosure.length,
                    ..i
                },
            )
        },
    }
}

/// Decides how a parsed channel reaches storage.
pub fn decide_channel(parsed: &RssChannel, stored: Option<Channel>, feed_id: u128) -> (r:
    ChannelDecision)
    ensures
        r@ == channel_decision(parsed@, opt_channel(stored), feed_id),
{
    match stored {
        None => ChannelDecision::Create(
            NewChannel {
                title: parsed.title.clone(),
                description: parsed.description.clone(),
                image: copy_text(&parsed.image),
                feed_id,
            },
        ),
        Some(mut c) => {
            if c.needs_update(&parsed.description, &parsed.image) {
                c.description = parsed.description.clone();
                c.image = copy_text(&parsed.image);
                ChannelDecision::Update(c)
            } else {
                ChannelDecision::Keep(c)
            }
        },
    }
}

/// Decides how a parsed item reaches storage.
pub fn decide_item(parsed: &RssItem, stored: Option<Item>, channel_id: u128) -> (r: ItemDecision)
    ensures
        r@ == item_decision(parsed@, opt_item(stored), channel_id),
{
    let e = &parsed.enclosure;
    match stored {
        None => ItemDecision::Create(
            NewItem {
                title: parsed.title.clone(),
                date: parsed.date,
                enclosure_type: e.mime_type.clone(),
                enclosure_url: e.url.clone(),
                channel_id,
                size: e.length,
            },
        ),
        Some(mut i) => {
            if i.needs_update(&e.mime_type, &e.url, e.length) {
                i.enclosure_type = e.mime_type.clone();
                i.enclosure_url = e.url.clone();
                i.enclosure_size = e.length;
                ItemDecision::Update(i)
            } else {
                ItemDecision::Keep
            }
        },
    }
}

/// A channel whose stored description and image equal the parsed ones is
/// not written.
pub proof fn lemma_unchanged_channel_not_written(
    p: RssChannelModel,
    c: ChannelModel,
    feed_id: u128,
)
    requires
        c.description == p.description,
        c.image == p.image,
    ensures
        channel_decision(p, Some(c), feed_id) == ChannelDecisionModel::Keep(c),
{
}

/// The row a channel decision leaves in storage; a created row gets the id `fresh`.
pub open spec fn channel_after(d: ChannelDecisionModel, fresh: u128) -> ChannelModel {
    match d {
        ChannelDecisionModel::Create(n) => ChannelModel {
            id: fresh,
            title: n.title,
            description: n.description,
            image: n.image,
            feed_id: n.feed_id,
        },
        ChannelDecisionModel::Update(c) => c,
        ChannelDecisionModel::Keep(c) => c,
    }
}

/// Merging a channel a second time, against the row the first merge left,
/// writes nothing; and the row keeps the parsed title and the feed.
pub proof fn lemma_channel_merge_idempotent(
    p: RssChannelModel,
    stored: Option<ChannelModel>,
    feed_id: u128,
    fresh: u128,
)
    requires
        stored is Some ==> stored->Some_0.title == p.title && stored->Some_0.feed_id == feed_id,
    ensures
        ({
            let row = channel_after(channel_decision(p, stored, feed_id), fresh);
            &&& row.title == p.title
            &&& row.feed_id == feed_id
            &&& channel_decision(p, Some(row), feed_id) == ChannelDecisionModel::Keep(row)
        }),
{
}

/// Where a lookup by `(title, date, channel_id)` returned a row, no item is
/// created; and what is created or updated carries the parsed identity.
pub proof fn lemma_item_identity_kept(p: RssItemModel, stored: Option<ItemModel>, channel_id: u128)
    requires
        stored is Some ==> stored->Some_0.title == p.title && stored->Some_0.date == p.date
            && stored->Some_0.channel_id == channel_id,
    ensures
        stored is Some ==> !(item_decision(p, stored, channel_id) is Create),
        match item_decision(p, stored, channel_id) {
            ItemDecisionModel::Create(n) => n.title == p.title && n.date == p.date && n.channel_id
                == channel_id,
            ItemDecisionModel::Update(i) => i.title == p.title && i.date == p.date && i.channel_id
                == channel_id && i.id == stored->Some_0.id,
            ItemDecisionModel::Keep => true,
        },
{
}

/// Where the merge of a feed stands.
#[derive(Clone, Copy, Debug, PartialEq, Eq, Structural)]
pub enum MergeStage {
    /// Waiting for the stored row of the current channel.
    ChannelLookup,
    /// Waiting for the current channel to be created or updated.
    ChannelSave,
    /// Waiting for the stored row of the current item.
    ItemLookup,
    /// Waiting for the current item to be created or updated.
    ItemSave,
    Finished,
}

/// A storage request of the merge.
pub enum MergeAction {
    LookupChannel { title: String, feed_id: u128 },
    CreateChannel(NewChannel),
    UpdateChannel(Channel),
    LookupItem { title: String, date: FeedDate, channel_id: u128 },
    CreateItem(NewItem),
    UpdateItem(Item),
    /// Every channel and item has been merged.
    Done,
}

/// The outcome of a storage request.
pub enum MergeEvent {
    ChannelFound(Option<Channel>),
    /// The channel row as created or updated.
    ChannelSaved(Channel),
    ItemFound(Option<Item>),
    ItemSaved,
}

pub enum MergeActionModel {
    LookupChannel { title: Seq<char>, feed_id: u128 },
    CreateChannel(NewChannelModel),
    UpdateChannel(ChannelModel),
    LookupItem { title: Seq<char>, date: FeedDate, channel_id: u128 },
    CreateItem(NewItemModel),
    UpdateItem(ItemModel),
    Done,
}

pub enum MergeEventModel {
    ChannelFound(Option<ChannelModel>),
    ChannelSaved(ChannelModel),
    ItemFound(Option<ItemModel>),
    ItemSaved,
}

impl View for MergeAction {
    type V = MergeActionModel;

    open spec fn view(&self) -> MergeActionModel {
        match self {
            MergeAction::LookupChannel { title, feed_id } => MergeActionModel::LookupChannel {
                title: title@,
                feed_id: *feed_id,
            },
            MergeAction::CreateChannel(n) => MergeActionModel::CreateChannel(n@),
            MergeAction::UpdateChannel(c) => MergeActionModel::UpdateChannel(c@),
            MergeAction::LookupItem { title, date, channel_id } => MergeActionModel::LookupItem {
                title: title@,
                date: *date,
                channel_id: *channel_id,
            },
            MergeAction::CreateItem(n) => MergeActionModel::CreateItem(n@),
            MergeAction::UpdateItem(i) => MergeActionModel::UpdateItem(i@),
            MergeAction::Done => MergeActionModel::Done,
        }
    }
}

impl View for MergeEvent {
    type V = MergeEventModel;

    open spec fn view(&self) -> MergeEventModel {
        match self {
            MergeEvent::ChannelFound(c) => MergeEventModel::ChannelFound(opt_channel(*c)),
            MergeEvent::ChannelSaved(c) => MergeEventModel::ChannelSaved(c@),
            MergeEvent::ItemFound(i) => MergeEventModel::ItemFound(opt_item(*i)),
            MergeEvent::ItemSaved => MergeEventModel::ItemSaved,
        }
    }
}

/// The merge of one parsed feed into the feed `feed_id`.
pub struct FeedMerge {
    feed_id: u128,
    channels: Vec<RssChannel>,
    channel: usize,
    item: usize,
    channel_id: u128,
    stage: MergeStage,
}

pub struct FeedMergeModel {
    pub feed_id: u128,
    pub channels: Seq<RssChannelModel>,
    /// The current channel.
    pub channel: int,
    /// The current item of the current channel.
    pub item: int,
    /// The stored id of the current channel, once known.
    pub channel_id: u128,
    pub stage: MergeStage,
}

impl View for FeedMerge {
    type V = FeedMergeModel;

    closed spec fn view(&self) -> FeedMergeModel {
        FeedMergeModel {
            feed_id: self.feed_id,
            channels: self.channels@.map_values(|c: RssChannel| c@),
            channel: self.channel as int,
            item: self.item as int,
            channel_id: self.channel_id,
            stage: self.stage,
        }
    }
}

/// The positions a merge can stand at.
pub open spec fn merge_wf(m: FeedMergeModel) -> bool {
    &&& 0 <= m.channel <= m.channels.len()
    &&& (m.stage == MergeStage::Finished <==> m.channel == m.channels.len())
    &&& m.channel < m.channels.len() ==> 0 <= m.item <= m.channels[m.channel].items.len()
    &&& (m.stage == MergeStage::ItemLookup || m.stage == MergeStage::ItemSave) ==> m.item
        < m.channels[m.channel].items.len()
}

/// Moves to channel `c`: its lookup, or the end.
pub open spec fn enter_channel(m: FeedMergeModel, c: int) -> (FeedMergeModel, MergeActionModel) {
    if c < m.channels.len() {
        (
            FeedMergeModel { channel: c, item: 0, stage: MergeStage::ChannelLookup, ..m },
            MergeActionModel::LookupChannel { title: m.channels[c].title, feed_id: m.feed_id },
        )
    } else {
        (
            FeedMergeModel { channel: m.channels.len() as int, item: 0, stage: MergeStage::Finished, ..m },
            MergeActionModel::Done,
        )
    }
}

/// Moves to item `i` of the current channel: its lookup, or the next channel.
pub open spec fn enter_item(m: FeedMergeModel, i: int) -> (FeedMergeModel, MergeActionModel) {
    let items = m.channels[m.channel].items;
    if i < items.len() {
        (
            FeedMergeModel { item: i, stage: MergeStage::ItemLookup, ..m },
            MergeActionModel::LookupItem {
                title: items[i].title,
                date: items[i].date,
                channel_id: m.channel_id,
            },
        )
    } else {
        enter_channel(m, m.channel + 1)
    }
}

/// The state and request after an outcome; `None` where the outcome does not
/// answer the pending request.
pub open spec fn merge_step(m: FeedMergeModel, e: MergeEventModel) -> Option<
    (FeedMergeModel, MergeActionModel),
> {
    match (m.stage, e) {
        (MergeStage::ChannelLookup, MergeEventModel::ChannelFound(stored)) => match channel_decision(
            m.channels[m.channel],
            stored,
            m.feed_id,
        ) {
            ChannelDecisionModel::Create(n) => Some(
                (
                    FeedMergeModel { stage: MergeStage::ChannelSave, ..m },
                    MergeActionModel::CreateChannel(n),
                ),
            ),
            ChannelDecisionModel::Update(c) => Some(
                (
                    FeedMergeModel { stage: MergeStage::ChannelSave, ..m },
                    MergeActionModel::UpdateChannel(c),
                ),
            ),
            ChannelDecisionModel::Keep(c) => Some(
                enter_item(FeedMergeModel { channel_id: c.id, ..m }, 0),
            ),
        },
        (MergeStage::ChannelSave, MergeEventModel::ChannelSaved(c)) => Some(
            enter_item(FeedMergeModel { channel_id: c.id, ..m }, 0),
        ),
        (MergeStage::ItemLookup, MergeEventModel::ItemFound(stored)) => match item_decision(
            m.channels[m.channel].items[m.item],
            stored,
            m.channel_id,
        ) {
            ItemDecisionModel::Create(n) => Some(
                (
                    FeedMergeModel { stage: MergeStage::ItemSave, ..m },
                    MergeActionModel::CreateItem(n),
                ),
            ),
            ItemDecisionModel::Update(i) => Some(
                (
                    FeedMergeModel { stage: MergeStage::ItemSave, ..m },
                    MergeActionModel::UpdateItem(i),
                ),
            ),
            ItemDecisionModel::Keep => Some(enter_item(m, m.item + 1)),
        },
        (MergeStage::ItemSave, MergeEventModel::ItemSaved) => Some(enter_item(m, m.item + 1)),
        _ => None,
    }
}

/// A merge that finds the current channel stored with the parsed description
/// and image moves on to that channel's items (or past it) without a write.
pub proof fn lemma_unchanged_channel_no_update(m: FeedMergeModel, c: ChannelModel)
    requires
        merge_wf(m),
        m.stage == MergeStage::ChannelLookup,
        c.description == m.channels[m.channel].description,
        c.image == m.channels[m.channel].image,
    ensures
        merge_step(m, MergeEventModel::ChannelFound(Some(c))) is Some,
        ({
            let a = merge_step(m, MergeEventModel::ChannelFound(Some(c)))->Some_0.1;
            &&& !(a is CreateChannel)
            &&& !(a is UpdateChannel)
            &&& !(a is CreateItem)
            &&& !(a is UpdateItem)
        }),
{
}

/// An outcome that does not answer the pending request.
#[derive(Clone, Copy, Debug, PartialEq, Eq, Structural)]
pub enum MergeError {
    UnexpectedEvent,
}

impl FeedMerge {
    pub open spec fn wf(&self) -> bool {
        merge_wf(self@)
    }

    /// Starts merging `feed` into the feed `feed_id`; answers the first request.
    pub fn new(feed_id: u128, feed: RssFeed) -> (r: (FeedMerge, MergeAction))
        ensures
            r.0.wf(),
            (r.0@, r.1@) == enter_channel(
                FeedMergeModel {
                    feed_id,
                    channels: feed@.channels,
                    channel: 0,
                    item: 0,
                    channel_id: 0,
                    stage: MergeStage::ChannelLookup,
                },
                0,
            ),
    {
        let mut m = FeedMerge {
            feed_id,
            channels: feed.channels,
            channel: 0,
            item: 0,
            channel_id: 0,
            stage: MergeStage::ChannelLookup,
        };
        let a = m.enter_channel(0);
        (m, a)
    }

    /// Where the merge stands.
    pub fn stage(&self) -> (r: MergeStage)
        ensures
            r == self@.stage,
    {
        self.stage
    }

    fn enter_channel(&mut self, c: usize) -> (r: MergeAction)
        requires
            c <= old(self).channels@.len(),
            old(self).item == 0,
        ensures
            (final(self)@, r@) == enter_channel(old(self)@, c as int),
            final(self).wf(),
    {
        if c < self.channels.len() {
            self.channel = c;
            self.stage = MergeStage::ChannelLookup;
            MergeAction::LookupChannel { title: self.channels[c].title.clone(), feed_id: self.feed_id }
        } else {
            self.channel = self.channels.len();
            self.stage = MergeStage::Finished;
            MergeAction::Done
        }
    }

    fn enter_channel_after(&mut self, c: usize) -> (r: MergeAction)
        requires
            c < old(self).channels@.len(),
            old(self).item == 0,
        ensures
            (final(self)@, r@) == enter_channel(old(self)@, c + 1),
            final(self).wf(),
    {
        if c < self.channels.len() - 1 {
            self.enter_channel(c + 1)
        } else {
            let n = self.channels.len();
            self.enter_channel(n)
        }
    }

    fn enter_item(&mut self, i: usize) -> (r: MergeAction)
        requires
            old(self).channel < old(self).channels@.len(),
            i <= old(self).channels@[old(self).channel as int]@.items.len(),
        ensures
            (final(self)@, r@) == enter_item(old(self)@, i as int),
            final(self).wf(),
    {
        let c = self.channel;
        if i < self.channels[c].items.len() {
            self.item = i;
            self.stage = MergeStage::ItemLookup;
            let it = &self.channels[c].items[i];
            MergeAction::LookupItem { title: it.title.clone(), date: it.date, channel_id: self.channel_id }
        } else {
            self.item = 0;
            self.enter_channel_after(c)
        }
    }

    fn enter_item_after(&mut self, i: usize) -> (r: MergeAction)
        requires
            old(self).channel < old(self).channels@.len(),
            i < old(self).channels@[old(self).channel as int]@.items.len(),
        ensures
            (final(self)@, r@) == enter_item(old(self)@, i + 1),
            final(self).wf(),
    {
        let c = self.channel;
        if i < self.channels[c].items.len() - 1 {
            self.enter_item(i + 1)
        } else {
            self.item = 0;
            self.enter_channel_after(c)
        }
    }

    /// Takes the outcome of the pending request and answers the next one.
    pub fn step(&mut self, event: MergeEvent) -> (r: Result<MergeAction, MergeError>)
        requires
            old(self).wf(),
        ensures
            final(self).wf(),
            match merge_step(old(self)@, event@) {
                Some((m, a)) => r is Ok && final(self)@ == m && r->Ok_0@ == a,
                None => r == Err::<MergeAction, MergeError>(MergeError::UnexpectedEvent)
                    && final(self)@ == old(self)@,
            },
    {
        match (self.stage, event) {
            (MergeStage::ChannelLookup, MergeEvent::ChannelFound(stored)) => {
                let d = decide_channel(&self.channels[self.channel], stored, self.feed_id);
                match d {
                    ChannelDecision::Create(n) => {
                        self.stage = MergeStage::ChannelSave;
                        Ok(MergeAction::CreateChannel(n))
                    },
                    ChannelDecision::Update(c) => {
                        self.stage = MergeStage::ChannelSave;
                        Ok(MergeAction::UpdateChannel(c))
                    },
                    ChannelDecision::Keep(c) => {
                        self.channel_id = c.id;
                        Ok(self.enter_item(0))
                    },
                }
            },
            (MergeStage::ChannelSave, MergeEvent::ChannelSaved(c)) => {
                self.channel_id = c.id;
                Ok(self.enter_item(0))
            },
            (MergeStage::ItemLookup, MergeEvent::ItemFound(stored)) => {
                let d = decide_item(
                    &self.channels[self.channel].items[self.item],
                    stored,
                    self.channel_id,
                );
                match d {
                    ItemDecision::Create(n) => {
                        self.stage = MergeStage::ItemSave;
                        Ok(MergeAction::CreateItem(n))
                    },
                    ItemDecision::Update(i) => {
                        self.stage = MergeStage::ItemSave;
                        Ok(MergeAction::UpdateItem(i))
                    },
                    ItemDecision::Keep => Ok(self.enter_item_after(self.item)),
                }
            },
            (MergeStage::ItemSave, MergeEvent::ItemSaved) => Ok(self.enter_item_after(self.item)),
            _ => Err(MergeError::UnexpectedEvent),
        }
    }
}

} // verus!
