//! Distributed tier: a shared key/value store that expires entries itself.
//!
//! The connection to the store is the caller's. This module decides what
//! the caller asks of it.

use vstd::prelude::*;

verus! {

/// How a value is written to the distributed store.
#[derive(Debug, Clone, Copy, PartialEq, Eq, Structural)]
pub enum RedisWrite {
    /// Store the value and let the store drop it after `seconds`.
    Expiring { seconds: u64 },
    /// Store the value with no expiry.
    Lasting,
}

/// The distributed tier as the orchestrator knows it.
#[derive(Debug, Clone, Copy, PartialEq, Eq, Structural)]
pub struct RedisRepo {
    pub ttl_seconds: u64,
}

impl RedisRepo {
    pub fn new(ttl_seconds: u64) -> (repo: RedisRepo)
        ensures
            repo.ttl_seconds == ttl_seconds,
    {
        RedisRepo { ttl_seconds }
    }

    /// The write that stores a value: expiring after the configured
    /// lifetime, or lasting where that lifetime is zero.
    pub open spec fn write_kind(self) -> RedisWrite {
        if self.ttl_seconds > 0 {
            RedisWrite::Expiring { seconds: self.ttl_seconds }
        } else {
            RedisWrite::Lasting
        }
    }

    /// The write that stores a value in this tier.
    pub fn write_command(&self) -> (write: RedisWrite)
        ensures
            write == self.write_kind(),
    {
        if self.ttl_seconds > 0 {
            RedisWrite::Expiring { seconds: self.ttl_seconds }
        } else {
            RedisWrite::Lasting
        }
    }
}

} // verus!
