//! Choosing which of a feed's known URLs to fetch, and recording every URL a
//! fetch passed through.
//!
//! The known URLs form a worklist. The untried URL with the smallest id is
//! fetched next; each `(url, status)` the fetch visited refreshes the row of
//! that URL, or adds a row where the URL was never seen. A URL that was
//! visited is not tried again in the same round.

use crate::date::FeedDate;
use crate::model::{FeedUrl, FeedUrlModel};
use crate::text::str_eq;
use vstd::prelude::*;

verus! {

/// A write to the feed's URL rows.
pub enum UrlWrite {
    Create(FeedUrl),
    Update(FeedUrl),
}

pub enum UrlWriteModel {
    Create(FeedUrlModel),
    Update(FeedUrlModel),
}

impl View for UrlWrite {
    type V = UrlWriteModel;

    open spec fn view(&self) -> UrlWriteModel {
        match self {
            UrlWrite::Create(u) => UrlWriteModel::Create(u@),
            UrlWrite::Update(u) => UrlWriteModel::Update(u@),
        }
    }
}

/// The URLs known for one feed, and which of them are still untried.
pub struct UrlWorklist {
    feed_id: u128,
    known: Vec<FeedUrl>,
    pending: Vec<bool>,
}

pub struct UrlWorklistModel {
    pub feed_id: u128,
    pub known: Seq<FeedUrlModel>,
    pub pending: Seq<bool>,
}

impl View for UrlWorklist {
    type V = UrlWorklistModel;

    closed spec fn view(&self) -> UrlWorklistModel {
        UrlWorklistModel {
            feed_id: self.feed_id,
            known: self.known@.map_values(|u: FeedUrl| u@),
            pending: self.pending@,
        }
    }
}

/// Among the first `k` rows, the untried one with the smallest id (the first
/// of equal ids).
pub open spec fn min_pending(w: UrlWorklistModel, k: int) -> Option<int>
    decreases k,
{
    if k <= 0 {
        None
    } else {
        let best = min_pending(w, k - 1);
        if w.pending[k - 1] && (best is None || w.known[k - 1].id < w.known[best->Some_0].id) {
            Some(k - 1)
        } else {
            best
        }
    }
}

/// The first known row with a URL, from position `k` on.
pub open spec fn find_url_from(known: Seq<FeedUrlModel>, url: Seq<char>, k: int) -> Option<int>
    decreases known.len() - k,
{
    if k < 0 || k >= known.len() {
        None
    } else if known[k].url == url {
        Some(k)
    } else {
        find_url_from(known, url, k + 1)
    }
}

/// No two known rows share a URL.
pub open spec fn urls_unique(known: Seq<FeedUrlModel>) -> bool {
    forall|i: int, j: int| 0 <= i < j < known.len() ==> #[trigger] known[i].url != #[trigger] known[j].url
}

/// The worklist and the write after the fetch visited `url` and got `status`
/// at the time `now`; a new row gets the id `fresh_id`.
pub open spec fn record_spec(
    w: UrlWorklistModel,
    url: Seq<char>,
    status: u16,
    now: FeedDate,
    fresh_id: u128,
) -> (UrlWorklistModel, UrlWriteModel) {
    match find_url_from(w.known, url, 0) {
        Some(k) => {
            let row = FeedUrlModel { status: Some(status), update_ts: now, ..w.known[k] };
            (
                UrlWorklistModel { known: w.known.update(k, row), pending: w.pending.update(k, false), ..w },
                UrlWriteModel::Update(row),
            )
        },
        None => {
            let row = FeedUrlModel {
                id: fresh_id,
                feed_id: w.feed_id,
                url,
                status: Some(status),
                manual: false,
                synced: false,
                update_ts: now,
            };
            (
                UrlWorklistModel { known: w.known.push(row), pending: w.pending.push(false), ..w },
                UrlWriteModel::Create(row),
            )
        },
    }
}

proof fn lemma_find_url_from(known: Seq<FeedUrlModel>, url: Seq<char>, k: int)
    requires
        0 <= k,
    ensures
        match find_url_from(known, url, k) {
            Some(j) => k <= j < known.len() && known[j].url == url,
            None => forall|i: int| k <= i < known.len() ==> #[trigger] known[i].url != url,
        },
    decreases known.len() - k,
{
    if k < known.len() && known[k].url != url {
        lemma_find_url_from(known, url, k + 1);
    }
}

proof fn lemma_min_pending(w: UrlWorklistModel, k: int)
    requires
        0 <= k <= w.pending.len(),
        w.pending.len() == w.known.len(),
    ensures
        match min_pending(w, k) {
            Some(j) => 0 <= j < k && w.pending[j],
            None => forall|i: int| 0 <= i < k ==> !#[trigger] w.pending[i],
        },
    decreases k,
{
    if k > 0 {
        lemma_min_pending(w, k - 1);
    }
}

impl UrlWorklist {
    pub open spec fn wf(&self) -> bool {
        self@.known.len() == self@.pending.len()
    }

    /// A worklist in which every known URL of the feed is untried.
    pub fn new(feed_id: u128, urls: Vec<FeedUrl>) -> (r: UrlWorklist)
        ensures
            r.wf(),
            r@.feed_id == feed_id,
            r@.known == urls@.map_values(|u: FeedUrl| u@),
            forall|i: int| 0 <= i < r@.pending.len() ==> #[trigger] r@.pending[i],
    {
        let n = urls.len();
        let mut pending: Vec<bool> = Vec::new();
        let mut i: usize = 0;
        while i < n
            invariant
                i <= n,
                pending@.len() == i,
                forall|j: int| 0 <= j < i ==> #[trigger] pending@[j],
            decreases n - i,
        {
            pending.push(true);
            i = i + 1;
        }
        UrlWorklist { feed_id, known: urls, pending }
    }

    /// The feed's known URL rows, as they now stand.
    pub fn known(&self) -> (r: &Vec<FeedUrl>)
        ensures
            r@.map_values(|u: FeedUrl| u@) == self@.known,
    {
        &self.known
    }

    /// Takes the untried URL with the smallest id off the worklist; `None`
    /// once every URL was tried.
    pub fn next_url(&mut self) -> (r: Option<String>)
        requires
            old(self).wf(),
        ensures
            final(self).wf(),
            match min_pending(old(self)@, old(self)@.known.len() as int) {
                Some(k) => r is Some && r->Some_0@ == old(self)@.known[k].url && final(self)@ == (
                UrlWorklistModel { pending: old(self)@.pending.update(k, false), ..old(self)@ }),
                None => r is None && final(self)@ == old(self)@,
            },
            r is None ==> forall|i: int| 0 <= i < old(self)@.pending.len() ==> !#[trigger] old(self)@.pending[i],
    {
        let n = self.known.len();
        let mut best: Option<usize> = None;
        let mut k: usize = 0;
        while k < n
            invariant
                n == self.known@.len(),
                n == self.pending@.len(),
                k <= n,
                self@ == old(self)@,
                match best {
                    Some(b) => b < k && min_pending(self@, k as int) == Some(b as int),
                    None => min_pending(self@, k as int) is None,
                },
            decreases n - k,
        {
            if self.pending[k] {
                match best {
                    None => best = Some(k),
                    Some(b) => {
                        if self.known[k].id < self.known[b].id {
                            best = Some(k);
                        }
                    },
                }
            }
            k = k + 1;
        }
        proof {
            lemma_min_pending(self@, n as int);
        }
        match best {
            Some(b) => {
                self.pending.set(b, false);
                proof {
                    assert(self@.known =~= old(self)@.known);
                    assert(self@.pending =~= old(self)@.pending.update(b as int, false));
                }
                Some(self.known[b].url.clone())
            },
            None => None,
        }
    }

    /// Records that the fetch visited `url` and got `status` at the time
    /// `now`, and answers the write that stores it; a new row gets the id
    /// `fresh_id`. URLs stay unique.
    pub fn record(&mut self, url: String, status: u16, now: FeedDate, fresh_id: u128) -> (r: UrlWrite)
        requires
            old(self).wf(),
        ensures
            final(self).wf(),
            (final(self)@, r@) == record_spec(old(self)@, url@, status, now, fresh_id),
            urls_unique(old(self)@.known) ==> urls_unique(final(self)@.known),
    {
        let n = self.known.len();
        let mut k: usize = 0;
        while k < n
            invariant
                n == self.known@.len(),
                n == self.pending@.len(),
                k <= n,
                self@ == old(self)@,
                find_url_from(self@.known, url@, 0) == find_url_from(self@.known, url@, k as int),
            decreases n - k,
        {
            if str_eq(self.known[k].url.as_str(), url.as_str()) {
                let mut row = self.known[k].clone();
                row.status = Some(status);
                row.update_ts = now;
                let written = row.clone();
                self.known.set(k, row);
                self.pending.set(k, false);
                proof {
                    assert(self@.known =~= old(self)@.known.update(
                        k as int,
                        FeedUrlModel { status: Some(status), update_ts: now, ..old(self)@.known[k as int] },
                    ));
                    assert(self@.pending =~= old(self)@.pending.update(k as int, false));
                    let kn = self@.known;
                    assert forall|i: int, j: int| urls_unique(old(self)@.known) && 0 <= i < j < kn.len() implies #[trigger] kn[i].url != #[trigger] kn[j].url by {
                        assert(kn[i].url == old(self)@.known[i].url);
                        assert(kn[j].url == old(self)@.known[j].url);
                    }
                }
                return UrlWrite::Update(written);
            }
            k = k + 1;
        }
        proof {
            lemma_find_url_from(old(self)@.known, url@, 0);
        }
        let row = FeedUrl {
            id: fresh_id,
            feed_id: self.feed_id,
            url,
            status: Some(status),
            manual: false,
            synced: false,
            update_ts: now,
        };
        let written = row.clone();
        self.known.push(row);
        self.pending.push(false);
        proof {
            assert(self@.known =~= old(self)@.known.push(written@));
            assert(self@.pending =~= old(self)@.pending.push(false));
            let kn = self@.known;
            assert forall|i: int, j: int| urls_unique(old(self)@.known) && 0 <= i < j < kn.len() implies #[trigger] kn[i].url != #[trigger] kn[j].url by {
                if j == old(self)@.known.len() {
                    assert(old(self)@.known[i].url != url@);
                }
            }
        }
        UrlWrite::Create(written)
    }
}

} // verus!
