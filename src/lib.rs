//! A token-bucket rate limiter whose state lives in a shared key-value store.
//!
//! The refill and admission rules, the conditional-write rule that keeps
//! concurrent writers from resurrecting spent tokens, and the way stored
//! records are resolved into a bucket are all verified here.
use vstd::prelude::*;

pub mod bucket;
pub mod clock;
pub mod model;
pub mod records;
pub mod refill;
pub mod store;

pub use bucket::{TokenBucket, TokenBucketError};
pub use clock::current_unix_time;
pub use model::{LimitResult, RateLimitItem, RateLimitSettings};
pub use records::{format_pk, resolve_records, StoredRecord};
pub use refill::{consume, tokens_after_refill, LimitOutcome};
pub use store::MemoryStore;
