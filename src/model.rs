use vstd::prelude::*;

verus! {

/// The settings for a rate limit.
#[derive(Debug, Clone, Copy, PartialEq, Eq, PartialOrd, Ord, Hash, Structural)]
pub struct RateLimitSettings {
    /// The maximum number of tokens that can be stored.
    pub max_tokens: u64,
    /// The number of tokens a newly seen identifier starts with.
    pub starting_tokens: u64,
    /// The number of tokens added every `refill_interval`.
    pub refill_rate: u64,
    /// The number of seconds between refills; never zero in valid settings.
    pub refill_interval: u64,
}

impl RateLimitSettings {
    /// Settings are usable when the refill interval is positive.
    pub open spec fn wf(&self) -> bool {
        self.refill_interval > 0
    }

    /// Builds settings, refusing a zero refill interval.
    ///
    /// `starting_tokens` is kept as given even when it exceeds `max_tokens`:
    /// the first refill clamps it.
    pub fn new(max_tokens: u64, starting_tokens: u64, refill_rate: u64, refill_interval: u64) -> (r:
        Option<Self>)
        ensures
            refill_interval == 0 <==> r is None,
            r matches Some(s) ==> s.wf() && s.max_tokens == max_tokens && s.starting_tokens
                == starting_tokens && s.refill_rate == refill_rate && s.refill_interval
                == refill_interval,
    {
        if refill_interval == 0 {
            None
        } else {
            Some(RateLimitSettings { max_tokens, starting_tokens, refill_rate, refill_interval })
        }
    }
}

/// The stored state of one bucket.
#[derive(Debug, Clone, Copy, PartialEq, Eq, PartialOrd, Ord, Hash, Structural)]
pub struct RateLimitItem {
    /// The last time the tokens were updated, in unix seconds.
    pub last_updated: u64,
    /// The number of tokens remaining.
    pub tokens: u64,
}

impl RateLimitItem {
    /// A bucket holding `tokens`, last updated at `now`.
    pub fn at(tokens: u64, now: u64) -> (r: Self)
        ensures
            r.tokens == tokens,
            r.last_updated == now,
    {
        RateLimitItem { last_updated: now, tokens }
    }
}

/// The decision on one request.
#[derive(Debug, Clone, Copy, PartialEq, Eq, PartialOrd, Ord, Hash, Structural)]
pub enum LimitResult {
    /// The request is admitted; `remaining` is the token count this decision left.
    Allow { remaining: u64 },
    /// The request is rejected and nothing is written.
    Deny,
}

} // verus!
