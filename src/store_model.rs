//! A model of the stored rows, and the laws of merging parsed channels and
//! items into it.
//!
//! Storage is a sequence of rows. A lookup by identity returns the first row
//! with that identity; a create appends a row with a fresh id; an update
//! replaces the row the lookup returned. What is written is what
//! [`channel_decision`] and [`item_decision`] decide, as [`FeedMerge`] does.
//!
//! [`FeedMerge`]: crate::reconcile::FeedMerge

use crate::date::FeedDate;
use crate::model::{ChannelModel, ItemModel};
use crate::reconcile::{channel_decision, item_decision, ChannelDecisionModel, ItemDecisionModel};
use crate::rss_feed::{RssChannelModel, RssItemModel};
use vstd::prelude::*;

verus! {

/// Whether a stored item has the identity `(title, date, channel_id)`.
pub open spec fn has_identity(i: ItemModel, title: Seq<char>, date: FeedDate, channel_id: u128) -> bool {
    i.title == title && i.date == date && i.channel_id == channel_id
}

/// The first position from `k` on of a stored item with an identity.
pub open spec fn find_item_from(
    s: Seq<ItemModel>,
    title: Seq<char>,
    date: FeedDate,
    channel_id: u128,
    k: int,
) -> Option<int>
    decreases s.len() - k,
{
    if k < 0 || k >= s.len() {
        None
    } else if has_identity(s[k], title, date, channel_id) {
        Some(k)
    } else {
        find_item_from(s, title, date, channel_id, k + 1)
    }
}

/// Where a lookup by identity finds a stored item.
pub open spec fn find_item(s: Seq<ItemModel>, title: Seq<char>, date: FeedDate, channel_id: u128) -> Option<int> {
    find_item_from(s, title, date, channel_id, 0)
}

/// No two stored items share an identity.
pub open spec fn identities_unique(s: Seq<ItemModel>) -> bool {
    forall|i: int, j: int|
        0 <= i < j < s.len() ==> !has_identity(#[trigger] s[i], s[j].title, s[j].date, #[trigger] s[j].channel_id)
}

/// The stored item that a lookup for a parsed item of channel `c` returns.
pub open spec fn lookup_item(s: Seq<ItemModel>, p: RssItemModel, c: u128) -> Option<ItemModel> {
    match find_item(s, p.title, p.date, c) {
        Some(k) => Some(s[k]),
        None => None,
    }
}

/// Storage after a parsed item of channel `c` was merged; a created row gets the id `fresh`.
pub open spec fn store_item(s: Seq<ItemModel>, p: RssItemModel, c: u128, fresh: u128) -> Seq<ItemModel> {
    match item_decision(p, lookup_item(s, p, c), c) {
        ItemDecisionModel::Create(n) => s.push(
            ItemModel {
                id: fresh,
                title: n.title,
                date: n.date,
                enclosure_type: n.enclosure_type,
                enclosure_url: n.enclosure_url,
                enclosure_size: n.size,
                channel_id: n.channel_id,
            },
        ),
        ItemDecisionModel::Update(i) => s.update(find_item(s, p.title, p.date, c)->Some_0, i),
        ItemDecisionModel::Keep => s,
    }
}

/// Storage after the first `m` merges of a run of `(item, channel id, fresh id)`.
pub open spec fn store_run(s: Seq<ItemModel>, run: Seq<(RssItemModel, u128, u128)>, m: int) -> Seq<
    ItemModel,
>
    decreases m,
{
    if m <= 0 || m > run.len() {
        s
    } else {
        let t = store_run(s, run, m - 1);
        store_item(t, run[m - 1].0, run[m - 1].1, run[m - 1].2)
    }
}

/// The writes (creates and updates) of the first `m` merges of a run.
pub open spec fn run_writes(s: Seq<ItemModel>, run: Seq<(RssItemModel, u128, u128)>, m: int) -> nat
    decreases m,
{
    if m <= 0 || m > run.len() {
        0
    } else {
        let t = store_run(s, run, m - 1);
        let w: nat = if item_decision(run[m - 1].0, lookup_item(t, run[m - 1].0, run[m - 1].1), run[m - 1].1) is Keep {
            0
        } else {
            1
        };
        run_writes(s, run, m - 1) + w
    }
}

proof fn lemma_find_from(s: Seq<ItemModel>, t: Seq<char>, d: FeedDate, c: u128, k: int)
    requires
        0 <= k,
    ensures
        match find_item_from(s, t, d, c, k) {
            Some(j) => k <= j < s.len() && has_identity(s[j], t, d, c) && forall|i: int|
                k <= i < j ==> !has_identity(#[trigger] s[i], t, d, c),
            None => forall|i: int| k <= i < s.len() ==> !has_identity(#[trigger] s[i], t, d, c),
        },
    decreases s.len() - k,
{
    if k < s.len() && !has_identity(s[k], t, d, c) {
        lemma_find_from(s, t, d, c, k + 1);
    }
}

proof fn lemma_find_at(s: Seq<ItemModel>, t: Seq<char>, d: FeedDate, c: u128, j: int)
    requires
        0 <= j < s.len(),
        has_identity(s[j], t, d, c),
        forall|i: int| 0 <= i < j ==> !has_identity(#[trigger] s[i], t, d, c),
    ensures
        find_item(s, t, d, c) == Some(j),
{
    lemma_find_from(s, t, d, c, 0);
    match find_item(s, t, d, c) {
        Some(k) => {
            if k < j {
                assert(!has_identity(s[k], t, d, c));
            } else if k > j {
                assert(!has_identity(s[j], t, d, c));
            }
        },
        None => {
            assert(!has_identity(s[j], t, d, c));
        },
    }
}

/// Merging one parsed item keeps stored identities unique.
proof fn lemma_store_item_unique(s: Seq<ItemModel>, p: RssItemModel, c: u128, fresh: u128)
    requires
        identities_unique(s),
    ensures
        identities_unique(store_item(s, p, c, fresh)),
{
    lemma_find_from(s, p.title, p.date, c, 0);
    let s2 = store_item(s, p, c, fresh);
    match find_item(s, p.title, p.date, c) {
        None => {
            assert forall|i: int, j: int| 0 <= i < j < s2.len() implies !has_identity(
                #[trigger] s2[i],
                s2[j].title,
                s2[j].date,
                #[trigger] s2[j].channel_id,
            ) by {
                if j == s.len() {
                    assert(!has_identity(s[i], p.title, p.date, c));
                }
            }
        },
        Some(k) => {
            assert forall|i: int, j: int| 0 <= i < j < s2.len() implies !has_identity(
                #[trigger] s2[i],
                s2[j].title,
                s2[j].date,
                #[trigger] s2[j].channel_id,
            ) by {
                assert(has_identity(s2[i], s[i].title, s[i].date, s[i].channel_id));
                assert(has_identity(s2[j], s[j].title, s[j].date, s[j].channel_id));
            }
        },
    }
}

/// Identity stability: whatever items are merged, in however many rounds,
/// storage that held each identity at most once still does, so no identity
/// ever gets a second row.
pub proof fn lemma_item_identity_stable(
    s: Seq<ItemModel>,
    run: Seq<(RssItemModel, u128, u128)>,
    m: int,
)
    requires
        identities_unique(s),
    ensures
        identities_unique(store_run(s, run, m)),
    decreases m,
{
    if 0 < m <= run.len() {
        lemma_item_identity_stable(s, run, m - 1);
        lemma_store_item_unique(store_run(s, run, m - 1), run[m - 1].0, run[m - 1].1, run[m - 1].2);
    }
}

/// Whether storage holds a parsed item of channel `c` as it is.
pub open spec fn is_current(s: Seq<ItemModel>, p: RssItemModel, c: u128) -> bool {
    match lookup_item(s, p, c) {
        Some(i) => i.enclosure_type == p.enclosure.mime_type && i.enclosure_url == p.enclosure.url
            && i.enclosure_size == p.enclosure.length,
        None => false,
    }
}

/// The run's entries have pairwise different identities.
pub open spec fn run_distinct(run: Seq<(RssItemModel, u128, u128)>) -> bool {
    forall|i: int, j: int|
        0 <= i < j < run.len() ==> !(#[trigger] run[i].0.title == #[trigger] run[j].0.title
            && run[i].0.date == run[j].0.date && run[i].1 == run[j].1)
}

/// After merging `p`, storage holds `p` as it is; an item `q` of another
/// identity that storage held as it is stays so.
proof fn lemma_store_item_current(
    s: Seq<ItemModel>,
    p: RssItemModel,
    c: u128,
    fresh: u128,
    q: RssItemModel,
    cq: u128,
)
    requires
        is_current(s, q, cq),
        !(p.title == q.title && p.date == q.date && c == cq),
    ensures
        is_current(store_item(s, p, c, fresh), q, cq),
{
    let s2 = store_item(s, p, c, fresh);
    lemma_find_from(s, q.title, q.date, cq, 0);
    lemma_find_from(s, p.title, p.date, c, 0);
    let kq = find_item(s, q.title, q.date, cq)->Some_0;
    assert forall|i: int| 0 <= i < kq implies !has_identity(#[trigger] s2[i], q.title, q.date, cq) by {
        assert(!has_identity(s[i], q.title, q.date, cq));
    }
    assert(has_identity(s2[kq], q.title, q.date, cq));
    lemma_find_at(s2, q.title, q.date, cq, kq);
}

proof fn lemma_store_item_self_current(s: Seq<ItemModel>, p: RssItemModel, c: u128, fresh: u128)
    ensures
        is_current(store_item(s, p, c, fresh), p, c),
{
    let s2 = store_item(s, p, c, fresh);
    lemma_find_from(s, p.title, p.date, c, 0);
    match find_item(s, p.title, p.date, c) {
        None => {
            assert forall|i: int| 0 <= i < s.len() implies !has_identity(#[trigger] s2[i], p.title, p.date, c) by {
                assert(!has_identity(s[i], p.title, p.date, c));
            }
            lemma_find_at(s2, p.title, p.date, c, s.len() as int);
        },
        Some(k) => {
            assert forall|i: int| 0 <= i < k implies !has_identity(#[trigger] s2[i], p.title, p.date, c) by {
                assert(!has_identity(s[i], p.title, p.date, c));
            }
            lemma_find_at(s2, p.title, p.date, c, k);
        },
    }
}

proof fn lemma_run_current(s: Seq<ItemModel>, run: Seq<(RssItemModel, u128, u128)>, m: int)
    requires
        0 <= m <= run.len(),
        run_distinct(run),
    ensures
        forall|j: int| 0 <= j < m ==> is_current(store_run(s, run, m), #[trigger] run[j].0, run[j].1),
    decreases m,
{
    if m > 0 {
        lemma_run_current(s, run, m - 1);
        let t = store_run(s, run, m - 1);
        lemma_store_item_self_current(t, run[m - 1].0, run[m - 1].1, run[m - 1].2);
        assert forall|j: int| 0 <= j < m implies is_current(store_run(s, run, m), #[trigger] run[j].0, run[j].1) by {
            if j < m - 1 {
                lemma_store_item_current(t, run[m - 1].0, run[m - 1].1, run[m - 1].2, run[j].0, run[j].1);
            }
        }
    }
}

proof fn lemma_rerun_quiet(
    s1: Seq<ItemModel>,
    run: Seq<(RssItemModel, u128, u128)>,
    m: int,
)
    requires
        0 <= m <= run.len(),
        forall|j: int| 0 <= j < run.len() ==> is_current(s1, #[trigger] run[j].0, run[j].1),
    ensures
        store_run(s1, run, m) == s1,
        run_writes(s1, run, m) == 0,
    decreases m,
{
    if m > 0 {
        lemma_rerun_quiet(s1, run, m - 1);
        assert(is_current(s1, run[m - 1].0, run[m - 1].1));
    }
}

/// Idempotence: merging the same items a second time, against what the first
/// merge left, writes nothing and leaves storage as it was. The run's items
/// have different identities, as the items of a feed that needs no
/// conflicting writes do.
pub proof fn lemma_item_merge_idempotent(
    s: Seq<ItemModel>,
    run: Seq<(RssItemModel, u128, u128)>,
    again: Seq<(RssItemModel, u128, u128)>,
)
    requires
        run_distinct(run),
        again.len() == run.len(),
        forall|j: int| 0 <= j < run.len() ==> (#[trigger] again[j]).0 == run[j].0 && again[j].1 == run[j].1,
    ensures
        store_run(store_run(s, run, run.len() as int), again, again.len() as int) == store_run(
            s,
            run,
            run.len() as int,
        ),
        run_writes(store_run(s, run, run.len() as int), again, again.len() as int) == 0,
{
    let s1 = store_run(s, run, run.len() as int);
    lemma_run_current(s, run, run.len() as int);
    assert forall|j: int| 0 <= j < again.len() implies is_current(s1, #[trigger] again[j].0, again[j].1) by {
        assert(again[j].0 == run[j].0);
    }
    lemma_rerun_quiet(s1, again, again.len() as int);
}


/// Whether a stored channel has the identity `(title, feed_id)`.
pub open spec fn is_channel(c: ChannelModel, title: Seq<char>, feed_id: u128) -> bool {
    c.title == title && c.feed_id == feed_id
}

/// The first position from `k` on of a stored channel with an identity.
pub open spec fn find_channel_from(s: Seq<ChannelModel>, title: Seq<char>, feed_id: u128, k: int) -> Option<int>
    decreases s.len() - k,
{
    if k < 0 || k >= s.len() {
        None
    } else if is_channel(s[k], title, feed_id) {
        Some(k)
    } else {
        find_channel_from(s, title, feed_id, k + 1)
    }
}

/// Where a lookup by identity finds a stored channel.
pub open spec fn find_channel(s: Seq<ChannelModel>, title: Seq<char>, feed_id: u128) -> Option<int> {
    find_channel_from(s, title, feed_id, 0)
}

/// No two stored channels share an identity.
pub open spec fn channels_unique(s: Seq<ChannelModel>) -> bool {
    forall|i: int, j: int|
        0 <= i < j < s.len() ==> !is_channel(#[trigger] s[i], s[j].title, #[trigger] s[j].feed_id)
}

/// The stored channel that a lookup for a parsed channel of feed `f` returns.
pub open spec fn lookup_channel(s: Seq<ChannelModel>, p: RssChannelModel, f: u128) -> Option<ChannelModel> {
    match find_channel(s, p.title, f) {
        Some(k) => Some(s[k]),
        None => None,
    }
}

/// Storage after a parsed channel of feed `f` was merged; a created row gets the id `fresh`.
pub open spec fn store_channel(s: Seq<ChannelModel>, p: RssChannelModel, f: u128, fresh: u128) -> Seq<ChannelModel> {
    match channel_decision(p, lookup_channel(s, p, f), f) {
        ChannelDecisionModel::Create(n) => s.push(
            ChannelModel { id: fresh, title: n.title, description: n.description, image: n.image, feed_id: n.feed_id },
        ),
        ChannelDecisionModel::Update(c) => s.update(find_channel(s, p.title, f)->Some_0, c),
        ChannelDecisionModel::Keep(_) => s,
    }
}

/// Storage after the first `m` merges of a run of `(channel, feed id, fresh id)`.
pub open spec fn store_channel_run(
    s: Seq<ChannelModel>,
    run: Seq<(RssChannelModel, u128, u128)>,
    m: int,
) -> Seq<ChannelModel>
    decreases m,
{
    if m <= 0 || m > run.len() {
        s
    } else {
        let t = store_channel_run(s, run, m - 1);
        store_channel(t, run[m - 1].0, run[m - 1].1, run[m - 1].2)
    }
}

/// The writes (creates and updates) of the first `m` merges of a run of channels.
pub open spec fn channel_run_writes(
    s: Seq<ChannelModel>,
    run: Seq<(RssChannelModel, u128, u128)>,
    m: int,
) -> nat
    decreases m,
{
    if m <= 0 || m > run.len() {
        0
    } else {
        let t = store_channel_run(s, run, m - 1);
        let w: nat = if channel_decision(run[m - 1].0, lookup_channel(t, run[m - 1].0, run[m - 1].1), run[m - 1].1) is Keep {
            0
        } else {
            1
        };
        channel_run_writes(s, run, m - 1) + w
    }
}

proof fn lemma_find_channel_from(s: Seq<ChannelModel>, t: Seq<char>, f: u128, k: int)
    requires
        0 <= k,
    ensures
        match find_channel_from(s, t, f, k) {
            Some(j) => k <= j < s.len() && is_channel(s[j], t, f) && forall|i: int|
                k <= i < j ==> !is_channel(#[trigger] s[i], t, f),
            None => forall|i: int| k <= i < s.len() ==> !is_channel(#[trigger] s[i], t, f),
        },
    decreases s.len() - k,
{
    if k < s.len() && !is_channel(s[k], t, f) {
        lemma_find_channel_from(s, t, f, k + 1);
    }
}

proof fn lemma_find_channel_at(s: Seq<ChannelModel>, t: Seq<char>, f: u128, j: int)
    requires
        0 <= j < s.len(),
        is_channel(s[j], t, f),
        forall|i: int| 0 <= i < j ==> !is_channel(#[trigger] s[i], t, f),
    ensures
        find_channel(s, t, f) == Some(j),
{
    lemma_find_channel_from(s, t, f, 0);
    match find_channel(s, t, f) {
        Some(k) => {
            if k < j {
                assert(!is_channel(s[k], t, f));
            } else if k > j {
                assert(!is_channel(s[j], t, f));
            }
        },
        None => {
            assert(!is_channel(s[j], t, f));
        },
    }
}

proof fn lemma_store_channel_unique(s: Seq<ChannelModel>, p: RssChannelModel, f: u128, fresh: u128)
    requires
        channels_unique(s),
    ensures
        channels_unique(store_channel(s, p, f, fresh)),
{
    lemma_find_channel_from(s, p.title, f, 0);
    let s2 = store_channel(s, p, f, fresh);
    match find_channel(s, p.title, f) {
        None => {
            assert forall|i: int, j: int| 0 <= i < j < s2.len() implies !is_channel(
                #[trigger] s2[i],
                s2[j].title,
                #[trigger] s2[j].feed_id,
            ) by {
                if j == s.len() {
                    assert(!is_channel(s[i], p.title, f));
                }
            }
        },
        Some(k) => {
            assert forall|i: int, j: int| 0 <= i < j < s2.len() implies !is_channel(
                #[trigger] s2[i],
                s2[j].title,
                #[trigger] s2[j].feed_id,
            ) by {
                assert(is_channel(s2[i], s[i].title, s[i].feed_id));
                assert(is_channel(s2[j], s[j].title, s[j].feed_id));
            }
        },
    }
}

/// Identity stability of channels: whatever channels are merged, in however
/// many rounds, storage that held each `(title, feed_id)` at most once still does.
pub proof fn lemma_channel_identity_stable(
    s: Seq<ChannelModel>,
    run: Seq<(RssChannelModel, u128, u128)>,
    m: int,
)
    requires
        channels_unique(s),
    ensures
        channels_unique(store_channel_run(s, run, m)),
    decreases m,
{
    if 0 < m <= run.len() {
        lemma_channel_identity_stable(s, run, m - 1);
        lemma_store_channel_unique(store_channel_run(s, run, m - 1), run[m - 1].0, run[m - 1].1, run[m - 1].2);
    }
}

/// Whether storage holds a parsed channel of feed `f` as it is.
pub open spec fn channel_is_current(s: Seq<ChannelModel>, p: RssChannelModel, f: u128) -> bool {
    match lookup_channel(s, p, f) {
        Some(c) => c.description == p.description && c.image == p.image,
        None => false,
    }
}

/// The run's channels have pairwise different identities.
pub open spec fn channel_run_distinct(run: Seq<(RssChannelModel, u128, u128)>) -> bool {
    forall|i: int, j: int|
        0 <= i < j < run.len() ==> !(#[trigger] run[i].0.title == #[trigger] run[j].0.title && run[i].1 == run[j].1)
}

proof fn lemma_store_channel_current(
    s: Seq<ChannelModel>,
    p: RssChannelModel,
    f: u128,
    fresh: u128,
    q: RssChannelModel,
    fq: u128,
)
    requires
        channel_is_current(s, q, fq),
        !(p.title == q.title && f == fq),
    ensures
        channel_is_current(store_channel(s, p, f, fresh), q, fq),
{
    let s2 = store_channel(s, p, f, fresh);
    lemma_find_channel_from(s, q.title, fq, 0);
    lemma_find_channel_from(s, p.title, f, 0);
    let kq = find_channel(s, q.title, fq)->Some_0;
    assert forall|i: int| 0 <= i < kq implies !is_channel(#[trigger] s2[i], q.title, fq) by {
        assert(!is_channel(s[i], q.title, fq));
    }
    assert(is_channel(s2[kq], q.title, fq));
    lemma_find_channel_at(s2, q.title, fq, kq);
}

proof fn lemma_store_channel_self_current(s: Seq<ChannelModel>, p: RssChannelModel, f: u128, fresh: u128)
    ensures
        channel_is_current(store_channel(s, p, f, fresh), p, f),
{
    let s2 = store_channel(s, p, f, fresh);
    lemma_find_channel_from(s, p.title, f, 0);
    match find_channel(s, p.title, f) {
        None => {
            assert forall|i: int| 0 <= i < s.len() implies !is_channel(#[trigger] s2[i], p.title, f) by {
                assert(!is_channel(s[i], p.title, f));
            }
            lemma_find_channel_at(s2, p.title, f, s.len() as int);
        },
        Some(k) => {
            assert forall|i: int| 0 <= i < k implies !is_channel(#[trigger] s2[i], p.title, f) by {
                assert(!is_channel(s[i], p.title, f));
            }
            lemma_find_channel_at(s2, p.title, f, k);
        },
    }
}

proof fn lemma_channel_run_current(s: Seq<ChannelModel>, run: Seq<(RssChannelModel, u128, u128)>, m: int)
    requires
        0 <= m <= run.len(),
        channel_run_distinct(run),
    ensures
        forall|j: int| 0 <= j < m ==> channel_is_current(store_channel_run(s, run, m), #[trigger] run[j].0, run[j].1),
    decreases m,
{
    if m > 0 {
        lemma_channel_run_current(s, run, m - 1);
        let t = store_channel_run(s, run, m - 1);
        lemma_store_channel_self_current(t, run[m - 1].0, run[m - 1].1, run[m - 1].2);
        assert forall|j: int| 0 <= j < m implies channel_is_current(store_channel_run(s, run, m), #[trigger] run[j].0, run[j].1) by {
            if j < m - 1 {
                lemma_store_channel_current(t, run[m - 1].0, run[m - 1].1, run[m - 1].2, run[j].0, run[j].1);
            }
        }
    }
}

proof fn lemma_channel_rerun_quiet(s1: Seq<ChannelModel>, run: Seq<(RssChannelModel, u128, u128)>, m: int)
    requires
        0 <= m <= run.len(),
        forall|j: int| 0 <= j < run.len() ==> channel_is_current(s1, #[trigger] run[j].0, run[j].1),
    ensures
        store_channel_run(s1, run, m) == s1,
        channel_run_writes(s1, run, m) == 0,
    decreases m,
{
    if m > 0 {
        lemma_channel_rerun_quiet(s1, run, m - 1);
        assert(channel_is_current(s1, run[m - 1].0, run[m - 1].1));
    }
}

/// Idempotence for channels: merging the same channels a second time,
/// against what the first merge left, writes nothing and leaves storage as
/// it was. The run's channels have different identities.
pub proof fn lemma_channel_run_idempotent(
    s: Seq<ChannelModel>,
    run: Seq<(RssChannelModel, u128, u128)>,
    again: Seq<(RssChannelModel, u128, u128)>,
)
    requires
        channel_run_distinct(run),
        again.len() == run.len(),
        forall|j: int| 0 <= j < run.len() ==> (#[trigger] again[j]).0 == run[j].0 && again[j].1 == run[j].1,
    ensures
        store_channel_run(store_channel_run(s, run, run.len() as int), again, again.len() as int)
            == store_channel_run(s, run, run.len() as int),
        channel_run_writes(store_channel_run(s, run, run.len() as int), again, again.len() as int) == 0,
{
    let s1 = store_channel_run(s, run, run.len() as int);
    lemma_channel_run_current(s, run, run.len() as int);
    assert forall|j: int| 0 <= j < again.len() implies channel_is_current(s1, #[trigger] again[j].0, again[j].1) by {
        assert(again[j].0 == run[j].0);
    }
    lemma_channel_rerun_quiet(s1, again, again.len() as int);
}

/// Stored channels and items.
pub struct StoreModel {
    pub channels: Seq<ChannelModel>,
    pub items: Seq<ItemModel>,
}

/// The items of a parsed channel as a run stored under the channel id `cid`;
/// created rows take their ids from `fresh`.
pub open spec fn item_run_of(items: Seq<RssItemModel>, cid: u128, fresh: Seq<u128>) -> Seq<
    (RssItemModel, u128, u128),
> {
    Seq::new(items.len(), |j: int| (items[j], cid, fresh[j]))
}

/// The channels of a feed as a run; created rows take their ids from `fresh`.
pub open spec fn channel_run_of(chans: Seq<RssChannelModel>, f: u128, fresh: Seq<u128>) -> Seq<
    (RssChannelModel, u128, u128),
> {
    Seq::new(chans.len(), |k: int| (chans[k], f, fresh[k]))
}

/// The id of the stored row of a parsed channel.
pub open spec fn channel_id_in(cs: Seq<ChannelModel>, c: RssChannelModel, f: u128) -> u128 {
    lookup_channel(cs, c, f)->Some_0.id
}

/// Storage after the first `m` channels of a parsed feed were merged into the
/// feed `f`, each followed by its items, as the merge of a feed proceeds.
/// Channel `k` takes the id `cfresh[k]` where it is created, its item `j`
/// the id `ifresh[k][j]`.
pub open spec fn merge_feed(
    s: StoreModel,
    f: u128,
    chans: Seq<RssChannelModel>,
    cfresh: Seq<u128>,
    ifresh: Seq<Seq<u128>>,
    m: int,
) -> StoreModel
    decreases m,
{
    if m <= 0 || m > chans.len() {
        s
    } else {
        let t = merge_feed(s, f, chans, cfresh, ifresh, m - 1);
        let c = chans[m - 1];
        let cs = store_channel(t.channels, c, f, cfresh[m - 1]);
        let run = item_run_of(c.items, channel_id_in(cs, c, f), ifresh[m - 1]);
        StoreModel { channels: cs, items: store_run(t.items, run, run.len() as int) }
    }
}

/// The writes of the first `m` channels of a feed merge, their items included.
pub open spec fn feed_writes(
    s: StoreModel,
    f: u128,
    chans: Seq<RssChannelModel>,
    cfresh: Seq<u128>,
    ifresh: Seq<Seq<u128>>,
    m: int,
) -> nat
    decreases m,
{
    if m <= 0 || m > chans.len() {
        0
    } else {
        let t = merge_feed(s, f, chans, cfresh, ifresh, m - 1);
        let c = chans[m - 1];
        let cs = store_channel(t.channels, c, f, cfresh[m - 1]);
        let run = item_run_of(c.items, channel_id_in(cs, c, f), ifresh[m - 1]);
        let w: nat = if channel_decision(c, lookup_channel(t.channels, c, f), f) is Keep {
            0
        } else {
            1
        };
        feed_writes(s, f, chans, cfresh, ifresh, m - 1) + w + run_writes(t.items, run, run.len() as int)
    }
}

/// No two stored channels share an id.
pub open spec fn channel_ids_unique(cs: Seq<ChannelModel>) -> bool {
    forall|i: int, j: int| 0 <= i < j < cs.len() ==> (#[trigger] cs[i]).id != (#[trigger] cs[j]).id
}

/// The ids handed to created channels differ from each other and from the stored ones.
pub open spec fn fresh_channel_ids(cs: Seq<ChannelModel>, fresh: Seq<u128>) -> bool {
    &&& forall|i: int, j: int| 0 <= i < j < fresh.len() ==> #[trigger] fresh[i] != #[trigger] fresh[j]
    &&& forall|k: int, i: int| 0 <= k < fresh.len() && 0 <= i < cs.len() ==> #[trigger] fresh[k] != (#[trigger] cs[i]).id
}

/// A parsed feed whose channels have different titles, and whose channels'
/// items have different `(title, date)`.
pub open spec fn feed_distinct(chans: Seq<RssChannelModel>) -> bool {
    &&& forall|i: int, j: int| 0 <= i < j < chans.len() ==> (#[trigger] chans[i]).title != (#[trigger] chans[j]).title
    &&& forall|k: int, i: int, j: int|
        0 <= k < chans.len() && 0 <= i < j < chans[k].items.len() ==> !((#[trigger] chans[k].items[i]).title
            == (#[trigger] chans[k].items[j]).title && chans[k].items[i].date == chans[k].items[j].date)
}

proof fn lemma_merge_feed_channels(
    s: StoreModel,
    f: u128,
    chans: Seq<RssChannelModel>,
    cfresh: Seq<u128>,
    ifresh: Seq<Seq<u128>>,
    m: int,
)
    requires
        0 <= m <= chans.len(),
        cfresh.len() == chans.len(),
    ensures
        merge_feed(s, f, chans, cfresh, ifresh, m).channels == store_channel_run(
            s.channels,
            channel_run_of(chans, f, cfresh),
            m,
        ),
    decreases m,
{
    if m > 0 {
        lemma_merge_feed_channels(s, f, chans, cfresh, ifresh, m - 1);
    }
}

/// Merging a channel of another identity leaves the row of `q` where and as it was.
proof fn lemma_store_channel_keeps(
    s: Seq<ChannelModel>,
    p: RssChannelModel,
    f: u128,
    fresh: u128,
    q: RssChannelModel,
    fq: u128,
)
    requires
        find_channel(s, q.title, fq) is Some,
        !(p.title == q.title && f == fq),
    ensures
        find_channel(store_channel(s, p, f, fresh), q.title, fq) == find_channel(s, q.title, fq),
        lookup_channel(store_channel(s, p, f, fresh), q, fq) == lookup_channel(s, q, fq),
{
    let s2 = store_channel(s, p, f, fresh);
    lemma_find_channel_from(s, q.title, fq, 0);
    lemma_find_channel_from(s, p.title, f, 0);
    let kq = find_channel(s, q.title, fq)->Some_0;
    assert forall|i: int| 0 <= i < kq implies !is_channel(#[trigger] s2[i], q.title, fq) by {
        assert(!is_channel(s[i], q.title, fq));
    }
    assert(s2[kq] == s[kq]);
    lemma_find_channel_at(s2, q.title, fq, kq);
}

/// The stored row of channel `k` after the whole run is the one its own merge left.
proof fn lemma_channel_row_stays(
    s: Seq<ChannelModel>,
    run: Seq<(RssChannelModel, u128, u128)>,
    k: int,
    m: int,
)
    requires
        0 <= k < m <= run.len(),
        channel_run_distinct(run),
    ensures
        find_channel(store_channel_run(s, run, m), run[k].0.title, run[k].1) is Some,
        lookup_channel(store_channel_run(s, run, m), run[k].0, run[k].1) == lookup_channel(
            store_channel_run(s, run, k + 1),
            run[k].0,
            run[k].1,
        ),
    decreases m,
{
    if m == k + 1 {
        let t = store_channel_run(s, run, k);
        lemma_store_channel_self_current(t, run[k].0, run[k].1, run[k].2);
    } else {
        lemma_channel_row_stays(s, run, k, m - 1);
        let t = store_channel_run(s, run, m - 1);
        assert(!(run[m - 1].0.title == run[k].0.title && run[m - 1].1 == run[k].1));
        lemma_store_channel_keeps(t, run[m - 1].0, run[m - 1].1, run[m - 1].2, run[k].0, run[k].1);
    }
}

/// Ids stay unique along a run, and no stored id is one still to be handed out.
proof fn lemma_channel_run_ids(s: Seq<ChannelModel>, chans: Seq<RssChannelModel>, f: u128, cfresh: Seq<u128>, m: int)
    requires
        0 <= m <= chans.len(),
        cfresh.len() == chans.len(),
        channel_ids_unique(s),
        fresh_channel_ids(s, cfresh),
    ensures
        channel_ids_unique(store_channel_run(s, channel_run_of(chans, f, cfresh), m)),
        forall|i: int, j: int|
            0 <= i < store_channel_run(s, channel_run_of(chans, f, cfresh), m).len() && m <= j < cfresh.len()
                ==> (#[trigger] store_channel_run(s, channel_run_of(chans, f, cfresh), m)[i]).id
                != #[trigger] cfresh[j],
    decreases m,
{
    let run = channel_run_of(chans, f, cfresh);
    if m > 0 {
        lemma_channel_run_ids(s, chans, f, cfresh, m - 1);
        let t = store_channel_run(s, run, m - 1);
        let t2 = store_channel_run(s, run, m);
        lemma_find_channel_from(t, chans[m - 1].title, f, 0);
        assert(run[m - 1] == (chans[m - 1], f, cfresh[m - 1]));
        assert forall|i: int| 0 <= i < t2.len() implies (t2[i].id == cfresh[m - 1] && i == t.len()) || (i
            < t.len() && t2[i].id == t[i].id) by {}
        assert forall|i: int, j: int| 0 <= i < j < t2.len() implies (#[trigger] t2[i]).id != (#[trigger] t2[j]).id by {
            if j == t.len() {
                assert(t[i].id != cfresh[m - 1]);
            }
        }
        assert forall|i: int, j: int| 0 <= i < t2.len() && m <= j < cfresh.len() implies (
        #[trigger] t2[i]).id != #[trigger] cfresh[j] by {
            if i == t.len() {
                assert(cfresh[m - 1] != cfresh[j]);
            }
        }
    } else {
        assert forall|i: int, j: int| 0 <= i < s.len() && 0 <= j < cfresh.len() implies (#[trigger] s[i]).id
            != #[trigger] cfresh[j] by {
            assert(cfresh[j] != s[i].id);
        }
    }
}

/// Merging runs whose entries all differ in identity from `q` keeps `q` current.
proof fn lemma_store_run_keeps_current(
    s: Seq<ItemModel>,
    run: Seq<(RssItemModel, u128, u128)>,
    m: int,
    q: RssItemModel,
    cq: u128,
)
    requires
        is_current(s, q, cq),
        forall|j: int| 0 <= j < run.len() ==> #[trigger] run[j].1 != cq,
    ensures
        is_current(store_run(s, run, m), q, cq),
    decreases m,
{
    if 0 < m <= run.len() {
        lemma_store_run_keeps_current(s, run, m - 1, q, cq);
        lemma_store_item_current(store_run(s, run, m - 1), run[m - 1].0, run[m - 1].1, run[m - 1].2, q, cq);
    }
}

/// The id under which channel `k` of a feed ends up stored.
pub open spec fn final_channel_id(
    s: StoreModel,
    f: u128,
    chans: Seq<RssChannelModel>,
    cfresh: Seq<u128>,
    k: int,
) -> u128 {
    channel_id_in(
        store_channel_run(s.channels, channel_run_of(chans, f, cfresh), chans.len() as int),
        chans[k],
        f,
    )
}

/// Different channels of a feed end up stored under different ids.
proof fn lemma_final_channel_ids_differ(
    s: StoreModel,
    f: u128,
    chans: Seq<RssChannelModel>,
    cfresh: Seq<u128>,
    k: int,
    l: int,
)
    requires
        feed_distinct(chans),
        cfresh.len() == chans.len(),
        channel_ids_unique(s.channels),
        fresh_channel_ids(s.channels, cfresh),
        0 <= k < chans.len(),
        0 <= l < chans.len(),
        k != l,
    ensures
        final_channel_id(s, f, chans, cfresh, k) != final_channel_id(s, f, chans, cfresh, l),
{
    let n = chans.len() as int;
    let run = channel_run_of(chans, f, cfresh);
    let cn = store_channel_run(s.channels, run, n);
    assert(channel_run_distinct(run)) by {
        assert forall|i: int, j: int| 0 <= i < j < run.len() implies !(#[trigger] run[i].0.title
            == #[trigger] run[j].0.title && run[i].1 == run[j].1) by {
            assert(chans[i].title != chans[j].title);
        }
    }
    lemma_channel_row_stays(s.channels, run, k, n);
    lemma_channel_row_stays(s.channels, run, l, n);
    lemma_find_channel_from(cn, chans[k].title, f, 0);
    lemma_find_channel_from(cn, chans[l].title, f, 0);
    lemma_channel_run_ids(s.channels, chans, f, cfresh, n);
    let ik = find_channel(cn, chans[k].title, f)->Some_0;
    let il = find_channel(cn, chans[l].title, f)->Some_0;
    assert(chans[k].title != chans[l].title);
    assert(ik != il);
    if ik < il {
        assert(cn[ik].id != cn[il].id);
    } else {
        assert(cn[il].id != cn[ik].id);
    }
}

/// After the first `m` channels of a feed were merged, each of their items
/// is stored as it is, under its channel's final id.
proof fn lemma_feed_items_current(
    s: StoreModel,
    f: u128,
    chans: Seq<RssChannelModel>,
    cfresh: Seq<u128>,
    ifresh: Seq<Seq<u128>>,
    m: int,
)
    requires
        0 <= m <= chans.len(),
        feed_distinct(chans),
        cfresh.len() == chans.len(),
        channel_ids_unique(s.channels),
        fresh_channel_ids(s.channels, cfresh),
    ensures
        forall|k: int, j: int|
            0 <= k < m && 0 <= j < chans[k].items.len() ==> is_current(
                merge_feed(s, f, chans, cfresh, ifresh, m).items,
                #[trigger] chans[k].items[j],
                final_channel_id(s, f, chans, cfresh, k),
            ),
    decreases m,
{
    if m > 0 {
        lemma_feed_items_current(s, f, chans, cfresh, ifresh, m - 1);
        let n = chans.len() as int;
        let crun = channel_run_of(chans, f, cfresh);
        let t = merge_feed(s, f, chans, cfresh, ifresh, m - 1);
        let c = chans[m - 1];
        lemma_merge_feed_channels(s, f, chans, cfresh, ifresh, m - 1);
        assert(crun[m - 1] == (c, f, cfresh[m - 1]));
        let cs = store_channel(t.channels, c, f, cfresh[m - 1]);
        assert(cs == store_channel_run(s.channels, crun, m));
        assert(channel_run_distinct(crun)) by {
            assert forall|i: int, j: int| 0 <= i < j < crun.len() implies !(#[trigger] crun[i].0.title
                == #[trigger] crun[j].0.title && crun[i].1 == crun[j].1) by {
                assert(chans[i].title != chans[j].title);
            }
        }
        lemma_channel_row_stays(s.channels, crun, m - 1, n);
        let cid = channel_id_in(cs, c, f);
        assert(cid == final_channel_id(s, f, chans, cfresh, m - 1));
        let run = item_run_of(c.items, cid, ifresh[m - 1]);
        assert(run_distinct(run)) by {
            assert forall|i: int, j: int| 0 <= i < j < run.len() implies !(#[trigger] run[i].0.title
                == #[trigger] run[j].0.title && run[i].0.date == run[j].0.date && run[i].1 == run[j].1) by {
                assert(run[i].0 == chans[m - 1].items[i]);
                assert(run[j].0 == chans[m - 1].items[j]);
            }
        }
        lemma_run_current(t.items, run, run.len() as int);
        let items = merge_feed(s, f, chans, cfresh, ifresh, m).items;
        assert(items == store_run(t.items, run, run.len() as int));
        assert forall|k: int, j: int| 0 <= k < m && 0 <= j < chans[k].items.len() implies is_current(
            items,
            #[trigger] chans[k].items[j],
            final_channel_id(s, f, chans, cfresh, k),
        ) by {
            if k == m - 1 {
                assert(run[j].0 == chans[k].items[j]);
            } else {
                lemma_final_channel_ids_differ(s, f, chans, cfresh, k, m - 1);
                lemma_store_run_keeps_current(
                    t.items,
                    run,
                    run.len() as int,
                    chans[k].items[j],
                    final_channel_id(s, f, chans, cfresh, k),
                );
            }
        }
    }
}

/// Merging a feed into storage that holds all of it as it is writes nothing.
proof fn lemma_feed_rerun_quiet(
    s1: StoreModel,
    f: u128,
    chans: Seq<RssChannelModel>,
    cfresh: Seq<u128>,
    ifresh: Seq<Seq<u128>>,
    m: int,
)
    requires
        0 <= m <= chans.len(),
        forall|k: int| 0 <= k < chans.len() ==> channel_is_current(s1.channels, #[trigger] chans[k], f),
        forall|k: int, j: int|
            0 <= k < chans.len() && 0 <= j < chans[k].items.len() ==> is_current(
                s1.items,
                #[trigger] chans[k].items[j],
                channel_id_in(s1.channels, chans[k], f),
            ),
    ensures
        merge_feed(s1, f, chans, cfresh, ifresh, m) == s1,
        feed_writes(s1, f, chans, cfresh, ifresh, m) == 0,
    decreases m,
{
    if m > 0 {
        lemma_feed_rerun_quiet(s1, f, chans, cfresh, ifresh, m - 1);
        let c = chans[m - 1];
        assert(channel_is_current(s1.channels, c, f));
        let cs = store_channel(s1.channels, c, f, cfresh[m - 1]);
        assert(cs == s1.channels);
        let run = item_run_of(c.items, channel_id_in(cs, c, f), ifresh[m - 1]);
        assert forall|j: int| 0 <= j < run.len() implies is_current(s1.items, #[trigger] run[j].0, run[j].1) by {
            assert(run[j].0 == chans[m - 1].items[j]);
        }
        lemma_rerun_quiet(s1.items, run, run.len() as int);
    }
}

/// Idempotence of a feed merge: merging an unchanged feed a second time,
/// against what the first merge left, creates no channel or item row, updates
/// none, and leaves storage as it was. The feed's channels have different
/// titles and each channel's items different `(title, date)`; stored
/// channels have different ids, and the ids handed to created channels are
/// new.
pub proof fn lemma_feed_merge_idempotent(
    s: StoreModel,
    f: u128,
    chans: Seq<RssChannelModel>,
    cfresh: Seq<u128>,
    ifresh: Seq<Seq<u128>>,
    cfresh2: Seq<u128>,
    ifresh2: Seq<Seq<u128>>,
)
    requires
        feed_distinct(chans),
        cfresh.len() == chans.len(),
        channel_ids_unique(s.channels),
        fresh_channel_ids(s.channels, cfresh),
    ensures
        ({
            let n = chans.len() as int;
            let s1 = merge_feed(s, f, chans, cfresh, ifresh, n);
            &&& merge_feed(s1, f, chans, cfresh2, ifresh2, n) == s1
            &&& feed_writes(s1, f, chans, cfresh2, ifresh2, n) == 0
        }),
{
    let n = chans.len() as int;
    let s1 = merge_feed(s, f, chans, cfresh, ifresh, n);
    let crun = channel_run_of(chans, f, cfresh);
    lemma_merge_feed_channels(s, f, chans, cfresh, ifresh, n);
    assert(channel_run_distinct(crun)) by {
        assert forall|i: int, j: int| 0 <= i < j < crun.len() implies !(#[trigger] crun[i].0.title
            == #[trigger] crun[j].0.title && crun[i].1 == crun[j].1) by {
            assert(chans[i].title != chans[j].title);
        }
    }
    lemma_channel_run_current(s.channels, crun, n);
    assert forall|k: int| 0 <= k < n implies channel_is_current(s1.channels, #[trigger] chans[k], f) by {
        assert(crun[k].0 == chans[k]);
    }
    lemma_feed_items_current(s, f, chans, cfresh, ifresh, n);
    assert forall|k: int, j: int| 0 <= k < n && 0 <= j < chans[k].items.len() implies is_current(
        s1.items,
        #[trigger] chans[k].items[j],
        channel_id_in(s1.channels, chans[k], f),
    ) by {
        assert(channel_id_in(s1.channels, chans[k], f) == final_channel_id(s, f, chans, cfresh, k));
    }
    lemma_feed_rerun_quiet(s1, f, chans, cfresh2, ifresh2, n);
}

/// Identity stability over feed merges: storage in which no channel
/// identity and no item identity occurs twice stays so after merging any
/// parsed feed, and so after any number of cycles.
pub proof fn lemma_feed_merge_identity_stable(
    s: StoreModel,
    f: u128,
    chans: Seq<RssChannelModel>,
    cfresh: Seq<u128>,
    ifresh: Seq<Seq<u128>>,
    m: int,
)
    requires
        channels_unique(s.channels),
        identities_unique(s.items),
    ensures
        channels_unique(merge_feed(s, f, chans, cfresh, ifresh, m).channels),
        identities_unique(merge_feed(s, f, chans, cfresh, ifresh, m).items),
    decreases m,
{
    if 0 < m <= chans.len() {
        lemma_feed_merge_identity_stable(s, f, chans, cfresh, ifresh, m - 1);
        let t = merge_feed(s, f, chans, cfresh, ifresh, m - 1);
        let c = chans[m - 1];
        lemma_store_channel_unique(t.channels, c, f, cfresh[m - 1]);
        let cs = store_channel(t.channels, c, f, cfresh[m - 1]);
        let run = item_run_of(c.items, channel_id_in(cs, c, f), ifresh[m - 1]);
        lemma_item_identity_stable(t.items, run, run.len() as int);
    }
}

} // verus!
