//! Errors of the ingestion pipeline, one kind per stage, and the message
//! error the read API answers with.

use crate::fetcher::FetchError;
use crate::model::RepoError;
use crate::reconcile::MergeError;
use crate::rss_feed::FeedParseError;
use vstd::prelude::*;

verus! {

/// Why one feed could not be reconciled in a cycle.
#[derive(Clone, Copy, Debug, PartialEq, Eq, Structural)]
pub enum FeedError {
    /// A fetch failed in transport.
    Fetch(FetchError),
    /// The fetched body is no readable feed.
    Parse(FeedParseError),
    /// Storage failed; writes made before it stand.
    Storage(RepoError),
    /// Storage answered a request that was not pending.
    Merge(MergeError),
    /// None of the feed's URLs gave a body.
    NoUrlRetrievable,
}

/// An error that carries only its message.
pub struct CustomError {
    msg: String,
}

impl CustomError {
    pub closed spec fn spec_msg(&self) -> Seq<char> {
        self.msg@
    }

    pub fn new(msg: String) -> (r: CustomError)
        ensures
            r.spec_msg() == msg@,
    {
        CustomError { msg }
    }

    /// The message.
    pub fn msg(&self) -> (r: &str)
        ensures
            r@ == self.spec_msg(),
    {
        self.msg.as_str()
    }
}

} // verus!
