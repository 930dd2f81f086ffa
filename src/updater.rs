//! The polling schedule: how often every feed is reconciled, how long one
//! request may take, and how a failed storage connection is retried.

use vstd::prelude::*;

verus! {

/// Seconds between two polling cycles.
pub const POLL_INTERVAL_SECS: u64 = 3600;

/// Seconds one HTTP request may take.
pub const REQUEST_TIMEOUT_SECS: u64 = 3;

/// Seconds to wait before connecting to storage again.
pub const RECONNECT_DELAY_SECS: u64 = 10;

/// Connection attempts at the start of a cycle: the first and one retry.
pub const CONNECT_ATTEMPTS: u32 = 2;

/// How often, and after what delay, a failed storage connection is retried.
#[derive(Clone, Copy, Debug, PartialEq, Eq, Structural)]
pub struct RetryPolicy {
    /// Attempts in all, the first included.
    pub max_attempts: u32,
    pub delay_secs: u64,
}

/// What to do after a connection attempt failed.
#[derive(Clone, Copy, Debug, PartialEq, Eq, Structural)]
pub enum RetryDecision {
    /// Wait this many seconds, then try again.
    Retry(u64),
    /// Skip this cycle; the next one tries afresh.
    GiveUp,
}

impl RetryPolicy {
    /// Decides after the `attempts`-th failed attempt of a cycle.
    pub fn after_failure(&self, attempts: u32) -> (r: RetryDecision)
        ensures
            attempts < self.max_attempts ==> r == RetryDecision::Retry(self.delay_secs),
            attempts >= self.max_attempts ==> r == RetryDecision::GiveUp,
    {
        if attempts < self.max_attempts {
            RetryDecision::Retry(self.delay_secs)
        } else {
            RetryDecision::GiveUp
        }
    }
}

/// The poller: where storage is, and how it is polled.
pub struct Updater {
    connection: String,
    retry: RetryPolicy,
    interval_secs: u64,
}

impl Updater {
    /// A poller of the storage at `connection`, with the hourly cycle and a
    /// single reconnection after ten seconds.
    pub fn new(connection: &str) -> (r: Self)
        ensures
            r.connection()@ == connection@,
            r.retry() == (RetryPolicy { max_attempts: CONNECT_ATTEMPTS, delay_secs: RECONNECT_DELAY_SECS }),
            r.interval_secs() == POLL_INTERVAL_SECS,
    {
        Self {
            connection: connection.to_owned(),
            retry: RetryPolicy { max_attempts: CONNECT_ATTEMPTS, delay_secs: RECONNECT_DELAY_SECS },
            interval_secs: POLL_INTERVAL_SECS,
        }
    }

    /// A poller with its own retry policy and cycle length.
    pub fn with_schedule(connection: &str, retry: RetryPolicy, interval_secs: u64) -> (r: Self)
        ensures
            r.connection()@ == connection@,
            r.retry() == retry,
            r.interval_secs() == interval_secs,
    {
        Self { connection: connection.to_owned(), retry, interval_secs }
    }

    pub closed spec fn connection(&self) -> String {
        self.connection
    }

    pub closed spec fn retry(&self) -> RetryPolicy {
        self.retry
    }

    pub closed spec fn interval_secs(&self) -> u64 {
        self.interval_secs
    }

    /// The storage connection string.
    pub fn connection_string(&self) -> (r: &str)
        ensures
            r@ == self.connection()@,
    {
        self.connection.as_str()
    }

    /// The retry policy for the storage connection.
    pub fn retry_policy(&self) -> (r: RetryPolicy)
        ensures
            r == self.retry(),
    {
        self.retry
    }

    /// Seconds between two cycles.
    pub fn interval(&self) -> (r: u64)
        ensures
            r == self.interval_secs(),
    {
        self.interval_secs
    }
}

} // verus!
