use vstd::prelude::*;

use crate::model::{LimitResult, RateLimitItem, RateLimitSettings};

verus! {

/// Whole refill intervals elapsed since `last_updated`; none when the clock
/// reads earlier than the stored time.
pub open spec fn elapsed_intervals(item: RateLimitItem, settings: RateLimitSettings, now: u64) -> nat
    recommends
        settings.wf(),
{
    if now <= item.last_updated {
        0
    } else {
        ((now - item.last_updated) as nat) / (settings.refill_interval as nat)
    }
}

/// Tokens in the bucket at `now`: the stored tokens plus one `refill_rate`
/// per elapsed interval, capped at `max_tokens`.
pub open spec fn refilled(item: RateLimitItem, settings: RateLimitSettings, now: u64) -> nat
    recommends
        settings.wf(),
{
    let grown = item.tokens + elapsed_intervals(item, settings, now) * settings.refill_rate;
    if grown <= settings.max_tokens {
        grown as nat
    } else {
        settings.max_tokens as nat
    }
}

/// Computes the tokens in the bucket at `now`, without changing anything.
///
/// Every step saturates, so the result is the exact capped value even where
/// the uncapped sum would not fit in a `u64`.
pub fn tokens_after_refill(item: &RateLimitItem, settings: &RateLimitSettings, now: u64) -> (r: u64)
    requires
        settings.wf(),
    ensures
        r == refilled(*item, *settings, now),
        r <= settings.max_tokens,
{
    let elapsed: u64 = now.saturating_sub(item.last_updated);
    let intervals: u64 = elapsed / settings.refill_interval;
    assert(intervals == elapsed_intervals(*item, *settings, now));
    let added: u64 = match intervals.checked_mul(settings.refill_rate) {
        Some(product) => product,
        None => u64::MAX,
    };
    let grown: u64 = item.tokens.saturating_add(added);
    if grown < settings.max_tokens {
        grown
    } else {
        settings.max_tokens
    }
}

/// What one decision amounts to: the answer for the caller, and the state to
/// publish, if any.
#[derive(Debug, Clone, Copy, PartialEq, Eq, Structural)]
pub struct LimitOutcome {
    /// The answer handed to the caller.
    pub result: LimitResult,
    /// The state to write back conditionally; `None` means no write at all.
    pub publish: Option<RateLimitItem>,
}

/// The decision on a request of `cost` tokens against `item` at `now`.
///
/// A request is denied when the refilled bucket holds fewer than `cost`
/// tokens; otherwise it is admitted, the cost is taken, and the new state is
/// stamped with `now`.
pub open spec fn decide(item: RateLimitItem, settings: RateLimitSettings, now: u64, cost: u64) -> LimitOutcome
    recommends
        settings.wf(),
{
    let available = refilled(item, settings, now);
    if available < cost {
        LimitOutcome { result: LimitResult::Deny, publish: None }
    } else {
        let left = (available - cost) as u64;
        LimitOutcome {
            result: LimitResult::Allow { remaining: left },
            publish: Some(RateLimitItem { last_updated: now, tokens: left }),
        }
    }
}

/// Refills `item` at `now` and tries to take `cost` tokens from it.
///
/// A deny carries nothing to publish, so a denied request never writes.
pub fn consume(item: &RateLimitItem, settings: &RateLimitSettings, now: u64, cost: u64) -> (r:
    LimitOutcome)
    requires
        settings.wf(),
    ensures
        r == decide(*item, *settings, now, cost),
        r.result is Deny <==> cost > refilled(*item, *settings, now),
        r.result is Deny <==> r.publish is None,
{
    let available = tokens_after_refill(item, settings, now);
    if available < cost {
        LimitOutcome { result: LimitResult::Deny, publish: None }
    } else {
        let left: u64 = available - cost;
        LimitOutcome {
            result: LimitResult::Allow { remaining: left },
            publish: Some(RateLimitItem::at(left, now)),
        }
    }
}

/// The refilled count never decreases as the clock moves forward, and never
/// exceeds `max_tokens`.
pub proof fn lemma_refill_monotone(item: RateLimitItem, settings: RateLimitSettings, earlier: u64, later: u64)
    requires
        settings.wf(),
        earlier <= later,
    ensures
        refilled(item, settings, earlier) <= refilled(item, settings, later),
        refilled(item, settings, later) <= settings.max_tokens,
{
    let d = settings.refill_interval as int;
    let i1 = elapsed_intervals(item, settings, earlier);
    let i2 = elapsed_intervals(item, settings, later);
    if earlier > item.last_updated {
        let a = earlier - item.last_updated;
        let b = later - item.last_updated;
        assert(a / d <= b / d) by (nonlinear_arith)
            requires
                0 <= a <= b,
                d > 0,
        ;
    }
    assert(i1 <= i2);
    let rate = settings.refill_rate as int;
    assert(i1 * rate <= i2 * rate) by (nonlinear_arith)
        requires
            i1 <= i2,
            rate >= 0,
    ;
}

/// Refilling is a function of the stored state, the settings and the clock
/// alone, and applying it a second time at the same instant adds nothing:
/// a bucket already refilled at `now` refills to the same count.
pub proof fn lemma_refill_idempotent(item: RateLimitItem, settings: RateLimitSettings, now: u64)
    requires
        settings.wf(),
    ensures
        ({
            let once = refilled(item, settings, now);
            let again = RateLimitItem { last_updated: now, tokens: once as u64 };
            refilled(again, settings, now) == once
        }),
{
    let once = refilled(item, settings, now);
    let again = RateLimitItem { last_updated: now, tokens: once as u64 };
    assert(elapsed_intervals(again, settings, now) == 0);
    assert(once <= settings.max_tokens);
}

/// A request of no tokens is always admitted, and leaves the refilled count
/// as it was.
pub proof fn lemma_zero_cost_allows(item: RateLimitItem, settings: RateLimitSettings, now: u64)
    requires
        settings.wf(),
    ensures
        decide(item, settings, now, 0).result == (LimitResult::Allow {
            remaining: refilled(item, settings, now) as u64,
        }),
{
}

} // verus!
