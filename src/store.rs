use vstd::prelude::*;

use crate::model::{LimitResult, RateLimitItem, RateLimitSettings};
use crate::refill::{consume, decide, LimitOutcome};

verus! {

/// Whether a conditional write of `new` lands over what is stored: it does
/// unless the stored state is strictly fresher.
pub open spec fn write_lands(stored: Option<RateLimitItem>, new: RateLimitItem) -> bool {
    match stored {
        None => true,
        Some(s) => s.last_updated <= new.last_updated,
    }
}

/// The stored state after a conditional write of `new`.
pub open spec fn after_put(stored: Option<RateLimitItem>, new: RateLimitItem) -> Option<
    RateLimitItem,
> {
    if write_lands(stored, new) {
        Some(new)
    } else {
        stored
    }
}

/// Decides whether a conditional write of `new` takes effect over `stored`.
/// A write that loses to a fresher record is dropped silently.
pub fn accepts_write(stored: Option<RateLimitItem>, new: &RateLimitItem) -> (r: bool)
    ensures
        r == write_lands(stored, *new),
{
    match stored {
        None => true,
        Some(s) => s.last_updated <= new.last_updated,
    }
}

/// Of two conditional writes, the fresher one survives whichever lands
/// second, provided the first found nothing fresher already stored.
pub proof fn lemma_fresher_write_survives(
    stored: Option<RateLimitItem>,
    first: RateLimitItem,
    second: RateLimitItem,
)
    requires
        write_lands(stored, first),
        first.last_updated > second.last_updated,
    ensures
        after_put(after_put(stored, first), second) == Some(first),
{
}

/// A conditional write never lowers the stored timestamp.
pub proof fn lemma_put_keeps_freshest(stored: Option<RateLimitItem>, new: RateLimitItem)
    ensures
        after_put(stored, new) is Some,
        stored matches Some(s) ==> s.last_updated <= after_put(stored, new)->0.last_updated,
        after_put(stored, new)->0.last_updated >= new.last_updated,
{
}

/// The value most recently recorded under `id` in an append-only log.
pub open spec fn latest<V>(log: Seq<(String, V)>, id: Seq<char>) -> Option<V>
    decreases log.len(),
{
    if log.len() == 0 {
        None
    } else if log.last().0@ == id {
        Some(log.last().1)
    } else {
        latest(log.drop_last(), id)
    }
}

fn find_latest<V: Copy>(log: &Vec<(String, V)>, id: &str) -> (r: Option<V>)
    ensures
        r == latest(log@, id@),
{
    let key = id.to_owned();
    let mut i: usize = log.len();
    assert(log@.subrange(0, i as int) =~= log@);
    while i > 0
        invariant
            i <= log.len(),
            key@ == id@,
            latest(log@, id@) == latest(log@.subrange(0, i as int), id@),
        decreases i,
    {
        assert(log@.subrange(0, i as int).drop_last() =~= log@.subrange(0, i - 1));
        if log[i - 1].0 == key {
            return Some(log[i - 1].1);
        }
        i = i - 1;
    }
    assert(log@.subrange(0, 0).len() == 0);
    None
}

/// A store held in memory: an append-only log of bucket states and of
/// settings per identifier, the latest entry for an identifier being the
/// current one.
pub struct MemoryStore {
    limits: Vec<(String, RateLimitItem)>,
    settings: Vec<(String, RateLimitSettings)>,
}

impl MemoryStore {
    /// Every stored settings record is usable.
    pub closed spec fn wf(&self) -> bool {
        forall|i: int| 0 <= i < self.settings@.len() ==> (#[trigger] self.settings@[i]).1.wf()
    }

    /// The bucket state stored for `id`, if any.
    pub closed spec fn stored_limit(&self, id: Seq<char>) -> Option<RateLimitItem> {
        latest(self.limits@, id)
    }

    /// The settings stored for `id`, if any.
    pub closed spec fn stored_settings(&self, id: Seq<char>) -> Option<RateLimitSettings> {
        latest(self.settings@, id)
    }

    /// What a fetch for `id` returns: the stored settings or the defaults,
    /// and the stored state or a fresh bucket of `starting_tokens` at `now`.
    pub open spec fn fetched(
        &self,
        id: Seq<char>,
        default_settings: RateLimitSettings,
        now: u64,
    ) -> (RateLimitItem, RateLimitSettings) {
        let settings = match self.stored_settings(id) {
            Some(s) => s,
            None => default_settings,
        };
        let item = match self.stored_limit(id) {
            Some(l) => l,
            None => RateLimitItem { last_updated: now, tokens: settings.starting_tokens },
        };
        (item, settings)
    }

    /// An empty store.
    pub fn new() -> (r: Self)
        ensures
            r.wf(),
            forall|id: Seq<char>| r.stored_limit(id) is None && r.stored_settings(id) is None,
    {
        MemoryStore { limits: Vec::new(), settings: Vec::new() }
    }

    /// Fetches the state and settings for `id`, substituting the defaults for
    /// whatever is missing. Nothing is written.
    pub fn get(&self, id: &str, default_settings: RateLimitSettings, now: u64) -> (r: (
        RateLimitItem,
        RateLimitSettings,
    ))
        ensures
            r == self.fetched(id@, default_settings, now),
    {
        let settings = match find_latest(&self.settings, id) {
            Some(s) => s,
            None => default_settings,
        };
        let item = match find_latest(&self.limits, id) {
            Some(l) => l,
            None => RateLimitItem::at(settings.starting_tokens, now),
        };
        (item, settings)
    }

    /// Writes `limit` for `id` unless a strictly fresher state is stored.
    pub fn put_limit(&mut self, id: &str, limit: RateLimitItem)
        requires
            old(self).wf(),
        ensures
            final(self).wf(),
            final(self).stored_limit(id@) == after_put(old(self).stored_limit(id@), limit),
            forall|other: Seq<char>|
                other != id@ ==> final(self).stored_limit(other) == old(self).stored_limit(other),
            forall|any: Seq<char>|
                final(self).stored_settings(any) == old(self).stored_settings(any),
    {
        let stored = find_latest(&self.limits, id);
        if accepts_write(stored, &limit) {
            let ghost before = self.limits@;
            self.limits.push((id.to_owned(), limit));
            assert(self.limits@.drop_last() =~= before);
        }
    }

    /// Writes `settings` for `id`, replacing whatever was stored.
    pub fn put_settings(&mut self, id: &str, settings: RateLimitSettings)
        requires
            old(self).wf(),
            settings.wf(),
        ensures
            final(self).wf(),
            final(self).stored_settings(id@) == Some(settings),
            forall|other: Seq<char>|
                other != id@ ==> final(self).stored_settings(other) == old(self).stored_settings(
                    other,
                ),
            forall|any: Seq<char>| final(self).stored_limit(any) == old(self).stored_limit(any),
    {
        let ghost before = self.settings@;
        self.settings.push((id.to_owned(), settings));
        assert(self.settings@.drop_last() =~= before);
        assert forall|i: int| 0 <= i < self.settings@.len() implies (
        #[trigger] self.settings@[i]).1.wf() by {
            if i < before.len() {
                assert(self.settings@[i] == before[i]);
            }
        }
    }

    /// Decides a request of `cost` tokens for `id` at `now`: fetch, refill,
    /// admit or deny, and on admission write the new state conditionally.
    ///
    /// The answer is the locally computed one, even where the write loses to
    /// a fresher record.
    pub fn limit(&mut self, id: &str, cost: u64, default_settings: RateLimitSettings, now: u64) -> (r:
        LimitResult)
        requires
            old(self).wf(),
            default_settings.wf(),
        ensures
            final(self).wf(),
            ({
                let (item, settings) = old(self).fetched(id@, default_settings, now);
                let outcome = decide(item, settings, now, cost);
                &&& r == outcome.result
                &&& match outcome.publish {
                    None => *final(self) == *old(self),
                    Some(next) => final(self).stored_limit(id@) == after_put(
                        old(self).stored_limit(id@),
                        next,
                    ),
                }
            }),
            forall|other: Seq<char>|
                other != id@ ==> final(self).stored_limit(other) == old(self).stored_limit(other),
            forall|any: Seq<char>|
                final(self).stored_settings(any) == old(self).stored_settings(any),
    {
        let (item, settings) = self.get(id, default_settings, now);
        proof {
            if self.stored_settings(id@) is Some {
                lemma_latest_member(self.settings@, id@);
            }
        }
        let outcome: LimitOutcome = consume(&item, &settings, now, cost);
        match outcome.publish {
            Some(next) => self.put_limit(id, next),
            None => {},
        }
        outcome.result
    }
}

/// A fetch for an identifier with no stored settings yields the defaults,
/// and one with no stored state yields a bucket of `starting_tokens` stamped
/// with the time of the fetch.
pub proof fn lemma_default_substitution(
    store: MemoryStore,
    id: Seq<char>,
    default_settings: RateLimitSettings,
    now: u64,
)
    ensures
        store.stored_settings(id) is None ==> store.fetched(id, default_settings, now).1
            == default_settings,
        store.stored_limit(id) is None ==> ({
            let (item, settings) = store.fetched(id, default_settings, now);
            item.tokens == settings.starting_tokens && item.last_updated == now
        }),
{
}

proof fn lemma_latest_member<V>(log: Seq<(String, V)>, id: Seq<char>)
    requires
        latest(log, id) is Some,
    ensures
        exists|i: int| 0 <= i < log.len() && #[trigger] log[i].1 == latest(log, id)->0,
    decreases log.len(),
{
    if log.last().0@ == id {
        assert(log[log.len() - 1].1 == latest(log, id)->0);
    } else {
        lemma_latest_member(log.drop_last(), id);
        let i = choose|i: int| 0 <= i < log.drop_last().len() && #[trigger] log.drop_last()[i].1 == latest(log.drop_last(), id)->0;
        assert(log[i] == log.drop_last()[i]);
    }
}

} // verus!
