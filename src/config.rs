//! Settings of the storage layer.
use vstd::prelude::*;

verus! {

/// Retry policy of the lock, cost tiers, and the overflow store's place.
#[derive(Clone, Debug)]
pub struct Config {
    /// Milliseconds between two lock attempts.
    pub retry_delay: u64,
    /// Lock attempts before giving up.
    pub retry_count: u64,
    /// Milliseconds a lock lease lives in the backend.
    pub lock_expiry: u64,
    /// Fixed cost of a listing.
    pub operation_a_cost: i64,
    /// Fixed cost of a lock or an unlock.
    pub operation_b_cost: i64,
    /// Fixed cost of a store, load, delete, exists or stat.
    pub operation_c_cost: i64,
    /// Cost of one byte kept for one second.
    pub memory_cost: i64,
    /// Base URL of the overflow store's API.
    pub ipfs_url: String,
    /// Values longer than this many bytes go to the overflow store.
    pub mem_threshold: usize,
    pub ipfs_key: String,
    pub ipfs_secret: String,
}

impl Default for Config {
    fn default() -> (r: Config)
        ensures
            r.retry_delay == 200,
            r.retry_count == 5,
            r.lock_expiry == 30000,
            r.operation_a_cost == 17637500,
            r.operation_b_cost == 3527500,
            r.operation_c_cost == 1763750,
            r.memory_cost == 879583,
            r.ipfs_url@.len() == 0,
            r.mem_threshold == 1000,
            r.ipfs_key@.len() == 0,
            r.ipfs_secret@.len() == 0,
    {
        Config {
            retry_delay: 200,
            retry_count: 5,
            lock_expiry: 30000,
            operation_a_cost: 17637500,
            operation_b_cost: 3527500,
            operation_c_cost: 1763750,
            memory_cost: 879583,
            ipfs_url: String::new(),
            mem_threshold: 1000,
            ipfs_key: String::new(),
            ipfs_secret: String::new(),
        }
    }
}

} // verus!
