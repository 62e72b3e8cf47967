use vstd::prelude::*;

use std::time::{Duration, SystemTime, SystemTimeError};

use crate::model::RateLimitItem;

verus! {

/// A point in time read from the system clock; carried through unopened.
#[verifier::external_type_specification]
#[verifier::external_body]
pub struct ExSystemTime(SystemTime);

/// The error of measuring from a later instant; carried through unopened.
#[verifier::external_type_specification]
#[verifier::external_body]
pub struct ExSystemTimeError(SystemTimeError);

/// Relies on std::time::SystemTime::now: it reads the system clock, so
/// nothing is promised of the value.
pub assume_specification[ SystemTime::now ]() -> SystemTime;

/// Relies on std::time::Duration::as_secs: the whole seconds of a duration.
/// Nothing is stated of the value, as no contract here reads a `Duration`.
pub assume_specification[ Duration::as_secs ](d: &Duration) -> u64;

/// Relies on std::time::SystemTime::duration_since, measured from the unix
/// epoch: an error when `t` is earlier than the epoch.
#[verifier::external_body]
fn since_unix_epoch(t: &SystemTime) -> (r: Result<Duration, SystemTimeError>) {
    t.duration_since(std::time::UNIX_EPOCH)
}

/// The whole seconds since the unix epoch by the system clock, or `None`
/// when the clock reads earlier than the epoch.
pub fn current_unix_time() -> (r: Option<u64>) {
    let now = SystemTime::now();
    match since_unix_epoch(&now) {
        Ok(elapsed) => Some(elapsed.as_secs()),
        Err(_) => None,
    }
}

impl RateLimitItem {
    /// A bucket holding `tokens`, stamped with the current time; `None` when
    /// the clock reads earlier than the unix epoch.
    pub fn new(tokens: u64) -> (r: Option<Self>)
        ensures
            r matches Some(item) ==> item.tokens == tokens,
    {
        match current_unix_time() {
            Some(now) => Some(RateLimitItem::at(tokens, now)),
            None => None,
        }
    }
}

} // verus!
