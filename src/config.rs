//! Settings of the service: where the read API and the poller find storage.

use vstd::prelude::*;

verus! {

/// The storage connection strings of the read API and of the poller.
pub struct PodcastPlayerApiConfig {
    pub api_connection: String,
    pub updater_connection: String,
}

} // verus!
