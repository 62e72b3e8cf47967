use vstd::prelude::*;
use vstd::string::*;

use crate::bucket::TokenBucketError;
use crate::model::{RateLimitItem, RateLimitSettings};

verus! {

/// One record found under an identifier's partition, as told apart by its
/// sort key, with the result of decoding it.
#[derive(Debug)]
pub enum StoredRecord {
    /// A bucket-state record, decoded or with the error that decoding gave.
    Limit(Result<RateLimitItem, serde_dynamo::Error>),
    /// A settings record, decoded or with the error that decoding gave.
    Settings(Result<RateLimitSettings, serde_dynamo::Error>),
    /// Any other record, or one without a usable sort key.
    Other,
}

/// The decoding error a record carries, if it is one that did not decode.
pub open spec fn decode_failure(record: StoredRecord) -> Option<serde_dynamo::Error> {
    match record {
        StoredRecord::Limit(Err(e)) => Some(e),
        StoredRecord::Settings(Err(e)) => Some(e),
        _ => None,
    }
}

/// The error of the first record among `records` that did not decode.
pub open spec fn first_failure(records: Seq<StoredRecord>) -> Option<serde_dynamo::Error>
    decreases records.len(),
{
    if records.len() == 0 {
        None
    } else {
        match decode_failure(records[0]) {
            Some(e) => Some(e),
            None => first_failure(records.drop_first()),
        }
    }
}

/// The first bucket state among `records`.
pub open spec fn first_limit(records: Seq<StoredRecord>) -> Option<RateLimitItem>
    decreases records.len(),
{
    if records.len() == 0 {
        None
    } else {
        match records[0] {
            StoredRecord::Limit(Ok(l)) => Some(l),
            _ => first_limit(records.drop_first()),
        }
    }
}

/// The first settings among `records`.
pub open spec fn first_settings(records: Seq<StoredRecord>) -> Option<RateLimitSettings>
    decreases records.len(),
{
    if records.len() == 0 {
        None
    } else {
        match records[0] {
            StoredRecord::Settings(Ok(s)) => Some(s),
            _ => first_settings(records.drop_first()),
        }
    }
}

/// What well-formed records under one identifier amount to: the stored
/// settings or the defaults, and the stored state or a fresh bucket of
/// `starting_tokens` at `now`.
pub open spec fn resolved(records: Seq<StoredRecord>, default_settings: RateLimitSettings, now: u64) -> (
    RateLimitItem,
    RateLimitSettings,
) {
    let settings = match first_settings(records) {
        Some(s) => s,
        None => default_settings,
    };
    let item = match first_limit(records) {
        Some(l) => l,
        None => RateLimitItem { last_updated: now, tokens: settings.starting_tokens },
    };
    (item, settings)
}

/// There is a record that did not decode exactly when a first one exists.
pub proof fn lemma_first_failure_exists(records: Seq<StoredRecord>)
    ensures
        first_failure(records) is Some <==> exists|i: int|
            0 <= i < records.len() && (#[trigger] decode_failure(records[i])) is Some,
    decreases records.len(),
{
    if records.len() > 0 {
        let rest = records.drop_first();
        lemma_first_failure_exists(rest);
        if exists|i: int| 0 <= i < records.len() && (#[trigger] decode_failure(records[i])) is Some {
            let i = choose|i: int| 0 <= i < records.len() && (#[trigger] decode_failure(records[i])) is Some;
            if i > 0 {
                assert(decode_failure(rest[i - 1]) is Some);
            }
        }
        if first_failure(rest) is Some {
            let j = choose|j: int| 0 <= j < rest.len() && (#[trigger] decode_failure(rest[j])) is Some;
            assert(decode_failure(records[j + 1]) is Some);
        }
    }
}

proof fn lemma_step(records: Seq<StoredRecord>, k: int)
    requires
        0 <= k < records.len(),
    ensures
        ({
            let here = records.subrange(k, records.len() as int);
            let rest = records.subrange(k + 1, records.len() as int);
            &&& first_failure(here) == match decode_failure(records[k]) {
                Some(e) => Some(e),
                None => first_failure(rest),
            }
            &&& first_limit(here) == match records[k] {
                StoredRecord::Limit(Ok(l)) => Some(l),
                _ => first_limit(rest),
            }
            &&& first_settings(here) == match records[k] {
                StoredRecord::Settings(Ok(s)) => Some(s),
                _ => first_settings(rest),
            }
        }),
{
    let here = records.subrange(k, records.len() as int);
    assert(here.drop_first() =~= records.subrange(k + 1, records.len() as int));
    assert(here[0] == records[k]);
}

/// Resolves the records read under one identifier into its bucket state and
/// settings, substituting defaults for what is missing.
///
/// A record that did not decode fails the whole fetch with its decoding
/// error: the first such record in the order read.
pub fn resolve_records(records: Vec<StoredRecord>, default_settings: RateLimitSettings, now: u64) -> (r: Result<
    (RateLimitItem, RateLimitSettings),
    TokenBucketError,
>)
    ensures
        r is Err <==> exists|i: int|
            0 <= i < records@.len() && (#[trigger] decode_failure(records@[i])) is Some,
        match first_failure(records@) {
            Some(e) => r == Err::<(RateLimitItem, RateLimitSettings), TokenBucketError>(
                TokenBucketError::SerdeError(e),
            ),
            None => r == Ok::<(RateLimitItem, RateLimitSettings), TokenBucketError>(
                resolved(records@, default_settings, now),
            ),
        },
{
    let ghost all = records@;
    let mut records = records;
    let mut failure: Option<serde_dynamo::Error> = None;
    let mut limit: Option<RateLimitItem> = None;
    let mut settings: Option<RateLimitSettings> = None;
    let ghost n = all.len() as int;
    assert(all.subrange(n, n).len() == 0);
    while records.len() > 0
        invariant
            records.len() <= all.len(),
            records@ == all.subrange(0, records.len() as int),
            failure == first_failure(all.subrange(records.len() as int, all.len() as int)),
            limit == first_limit(all.subrange(records.len() as int, all.len() as int)),
            settings == first_settings(all.subrange(records.len() as int, all.len() as int)),
        decreases records.len(),
    {
        let ghost k = records.len() - 1;
        proof {
            lemma_step(all, k);
            assert(records@[k] == all[k]);
        }
        match records.pop() {
            Some(StoredRecord::Limit(Ok(l))) => limit = Some(l),
            Some(StoredRecord::Limit(Err(e))) => failure = Some(e),
            Some(StoredRecord::Settings(Ok(s))) => settings = Some(s),
            Some(StoredRecord::Settings(Err(e))) => failure = Some(e),
            Some(StoredRecord::Other) => {},
            None => {},
        }
        assert(records@ =~= all.subrange(0, records.len() as int));
    }
    proof {
        assert(all.subrange(0, all.len() as int) =~= all);
        lemma_first_failure_exists(all);
    }
    if let Some(e) = failure {
        return Err(TokenBucketError::SerdeError(e));
    }
    let settings = match settings {
        Some(s) => s,
        None => default_settings,
    };
    let limit = match limit {
        Some(l) => l,
        None => RateLimitItem::at(settings.starting_tokens, now),
    };
    Ok((limit, settings))
}

/// The partition key under which an identifier's records are stored: the
/// optional prefix followed by the identifier.
pub fn format_pk(prefix: &Option<String>, id: &str) -> (r: String)
    ensures
        r@ == match prefix {
            Some(p) => p@ + id@,
            None => id@,
        },
{
    match prefix {
        Some(p) => p.clone().concat(id),
        None => id.to_owned(),
    }
}

} // verus!
