use serde::de::Error as _;
use token_bucket::{
    consume, current_unix_time, format_pk, resolve_records, tokens_after_refill, LimitResult,
    MemoryStore, RateLimitItem, RateLimitSettings, StoredRecord, TokenBucket, TokenBucketError,
};

fn bad_record() -> serde_dynamo::Error {
    serde_dynamo::Error::custom("malformed record")
}

fn settings(max_tokens: u64, starting_tokens: u64, refill_rate: u64, refill_interval: u64) -> RateLimitSettings {
    RateLimitSettings::new(max_tokens, starting_tokens, refill_rate, refill_interval).unwrap()
}

fn ten_per_second() -> RateLimitSettings {
    settings(10, 10, 1, 1)
}

#[test]
fn settings_refuse_zero_interval() {
    assert!(RateLimitSettings::new(10, 10, 1, 0).is_none());
    let s = RateLimitSettings::new(10, 5, 2, 7).unwrap();
    assert_eq!((s.max_tokens, s.starting_tokens, s.refill_rate, s.refill_interval), (10, 5, 2, 7));
}

#[test]
fn refill_adds_whole_intervals() {
    let s = settings(100, 0, 3, 10);
    let item = RateLimitItem::at(4, 1_000);
    assert_eq!(tokens_after_refill(&item, &s, 1_000), 4);
    assert_eq!(tokens_after_refill(&item, &s, 1_009), 4);
    assert_eq!(tokens_after_refill(&item, &s, 1_010), 7);
    assert_eq!(tokens_after_refill(&item, &s, 1_035), 13);
}

#[test]
fn refill_clamps_at_max() {
    let s = settings(10, 0, 3, 1);
    let item = RateLimitItem::at(8, 50);
    assert_eq!(tokens_after_refill(&item, &s, 60), 10);
}

#[test]
fn refill_ignores_clock_running_backwards() {
    let s = settings(10, 0, 3, 1);
    let item = RateLimitItem::at(2, 500);
    assert_eq!(tokens_after_refill(&item, &s, 400), 2);
}

#[test]
fn refill_saturates_instead_of_wrapping() {
    let s = settings(u64::MAX, 0, u64::MAX, 1);
    let item = RateLimitItem::at(u64::MAX - 1, 0);
    assert_eq!(tokens_after_refill(&item, &s, u64::MAX), u64::MAX);
    let capped = settings(1_000, 0, u64::MAX, 1);
    assert_eq!(tokens_after_refill(&RateLimitItem::at(7, 0), &capped, 5), 1_000);
}

#[test]
fn refill_is_monotone_in_time() {
    let s = settings(20, 0, 2, 3);
    let item = RateLimitItem::at(1, 100);
    let mut previous = 0;
    for now in 90..140 {
        let t = tokens_after_refill(&item, &s, now);
        assert!(t >= previous);
        assert!(t <= s.max_tokens);
        previous = t;
    }
}

#[test]
fn refill_twice_gives_the_same() {
    let s = settings(20, 0, 2, 3);
    let item = RateLimitItem::at(1, 100);
    let first = tokens_after_refill(&item, &s, 117);
    let second = tokens_after_refill(&item, &s, 117);
    assert_eq!(first, second);
    assert_eq!(first, 11);
    assert_eq!(item, RateLimitItem::at(1, 100));
    let again = RateLimitItem::at(first, 117);
    assert_eq!(tokens_after_refill(&again, &s, 117), first);
}

#[test]
fn zero_cost_is_always_allowed() {
    let s = ten_per_second();
    let empty = RateLimitItem::at(0, 1_000);
    let outcome = consume(&empty, &s, 1_000, 0);
    assert_eq!(outcome.result, LimitResult::Allow { remaining: 0 });
    assert_eq!(outcome.publish, Some(RateLimitItem::at(0, 1_000)));
}

#[test]
fn deny_publishes_nothing() {
    let s = ten_per_second();
    let item = RateLimitItem::at(3, 1_000);
    let outcome = consume(&item, &s, 1_000, 4);
    assert_eq!(outcome.result, LimitResult::Deny);
    assert_eq!(outcome.publish, None);
}

#[test]
fn allow_publishes_the_new_state() {
    let s = ten_per_second();
    let item = RateLimitItem::at(3, 1_000);
    let outcome = consume(&item, &s, 1_002, 5);
    assert_eq!(outcome.result, LimitResult::Allow { remaining: 0 });
    assert_eq!(outcome.publish, Some(RateLimitItem::at(0, 1_002)));
}

#[test]
fn scenario_fresh_identifier_then_overdraw() {
    let mut store = MemoryStore::new();
    let s = ten_per_second();
    assert_eq!(store.limit("caller", 5, s, 1_000), LimitResult::Allow { remaining: 5 });
    assert_eq!(store.limit("caller", 6, s, 1_000), LimitResult::Deny);
}

#[test]
fn scenario_refill_after_three_seconds() {
    let mut store = MemoryStore::new();
    let s = ten_per_second();
    assert_eq!(store.limit("caller", 10, s, 1_000), LimitResult::Allow { remaining: 0 });
    assert_eq!(store.limit("caller", 2, s, 1_003), LimitResult::Allow { remaining: 1 });
}

#[test]
fn scenario_concurrent_callers_both_allowed() {
    let mut store = MemoryStore::new();
    let s = ten_per_second();
    store.put_limit("caller", RateLimitItem::at(5, 1_000));
    let (a_item, a_settings) = store.get("caller", s, 1_000);
    let (b_item, b_settings) = store.get("caller", s, 1_000);
    assert_eq!(a_item.tokens, 5);
    let a = consume(&a_item, &a_settings, 1_000, 3);
    let b = consume(&b_item, &b_settings, 1_000, 3);
    assert_eq!(a.result, LimitResult::Allow { remaining: 2 });
    assert_eq!(b.result, LimitResult::Allow { remaining: 2 });
    store.put_limit("caller", a.publish.unwrap());
    store.put_limit("caller", b.publish.unwrap());
    let (stored, _) = store.get("caller", s, 1_000);
    assert_eq!(stored, RateLimitItem::at(2, 1_000));
}

#[test]
fn deny_leaves_the_store_untouched() {
    let mut store = MemoryStore::new();
    let s = ten_per_second();
    store.put_limit("caller", RateLimitItem::at(1, 1_000));
    assert_eq!(store.limit("caller", 5, s, 1_002), LimitResult::Deny);
    let (stored, _) = store.get("caller", s, 1_002);
    assert_eq!(stored, RateLimitItem::at(1, 1_000));
}

#[test]
fn stale_write_does_not_overwrite_fresher() {
    let mut store = MemoryStore::new();
    let s = ten_per_second();
    store.put_limit("caller", RateLimitItem::at(2, 2_000));
    store.put_limit("caller", RateLimitItem::at(9, 1_500));
    let (stored, _) = store.get("caller", s, 2_000);
    assert_eq!(stored, RateLimitItem::at(2, 2_000));
    store.put_limit("caller", RateLimitItem::at(4, 2_001));
    let (stored, _) = store.get("caller", s, 2_001);
    assert_eq!(stored, RateLimitItem::at(4, 2_001));
}

#[test]
fn writes_for_one_identifier_leave_others_alone() {
    let mut store = MemoryStore::new();
    let s = ten_per_second();
    store.put_limit("a", RateLimitItem::at(1, 10));
    store.put_limit("b", RateLimitItem::at(7, 5));
    assert_eq!(store.get("a", s, 20).0, RateLimitItem::at(1, 10));
    assert_eq!(store.get("b", s, 20).0, RateLimitItem::at(7, 5));
}

#[test]
fn defaults_stand_in_for_missing_records() {
    let store = MemoryStore::new();
    let s = settings(10, 4, 1, 1);
    let (item, got) = store.get("nobody", s, 777);
    assert_eq!(got, s);
    assert_eq!(item, RateLimitItem::at(4, 777));
}

#[test]
fn stored_settings_replace_defaults() {
    let mut store = MemoryStore::new();
    let defaults = ten_per_second();
    let custom = settings(3, 2, 1, 60);
    store.put_settings("caller", custom);
    let (item, got) = store.get("caller", defaults, 50);
    assert_eq!(got, custom);
    assert_eq!(item, RateLimitItem::at(2, 50));
    assert_eq!(store.limit("caller", 3, defaults, 50), LimitResult::Deny);
    assert_eq!(store.limit("caller", 2, defaults, 50), LimitResult::Allow { remaining: 0 });
}

#[test]
fn starting_above_max_is_clamped_on_first_refill() {
    let mut store = MemoryStore::new();
    let s = settings(5, 8, 1, 1);
    let (item, _) = store.get("caller", s, 10);
    assert_eq!(item.tokens, 8);
    assert_eq!(store.limit("caller", 1, s, 10), LimitResult::Allow { remaining: 4 });
}

#[test]
fn resolve_takes_first_decoded_records() {
    let defaults = ten_per_second();
    let custom = settings(3, 2, 1, 60);
    let records = vec![
        StoredRecord::Other,
        StoredRecord::Settings(Ok(custom)),
        StoredRecord::Limit(Ok(RateLimitItem::at(6, 40))),
        StoredRecord::Limit(Ok(RateLimitItem::at(9, 90))),
        StoredRecord::Settings(Ok(defaults)),
    ];
    let (item, got) = resolve_records(records, defaults, 100).unwrap();
    assert_eq!(item, RateLimitItem::at(6, 40));
    assert_eq!(got, custom);
}

#[test]
fn resolve_falls_back_to_defaults() {
    let defaults = settings(10, 4, 1, 1);
    let records = vec![StoredRecord::Other];
    let (item, got) = resolve_records(records, defaults, 321).unwrap();
    assert_eq!(got, defaults);
    assert_eq!(item, RateLimitItem::at(4, 321));
    let (item, got) = resolve_records(Vec::new(), defaults, 5).unwrap();
    assert_eq!(got, defaults);
    assert_eq!(item, RateLimitItem::at(4, 5));
}

#[test]
fn resolve_fails_on_undecodable_limit() {
    let defaults = ten_per_second();
    let records = vec![
        StoredRecord::Settings(Ok(defaults)),
        StoredRecord::Limit(Err(bad_record())),
    ];
    let result = resolve_records(records, defaults, 10);
    assert!(matches!(result, Err(TokenBucketError::SerdeError(_))));
}

#[test]
fn resolve_fails_on_undecodable_settings() {
    let defaults = ten_per_second();
    let records = vec![
        StoredRecord::Limit(Ok(RateLimitItem::at(6, 40))),
        StoredRecord::Other,
        StoredRecord::Settings(Err(bad_record())),
    ];
    let result = resolve_records(records, defaults, 10);
    assert!(matches!(result, Err(TokenBucketError::SerdeError(_))));
}

#[test]
fn partition_key_carries_prefix() {
    assert_eq!(format_pk(&Some("rl#".to_string()), "abc"), "rl#abc");
    assert_eq!(format_pk(&None, "abc"), "abc");
}

#[test]
fn new_item_reads_the_clock() {
    let before = current_unix_time().unwrap();
    let item = RateLimitItem::new(3).unwrap();
    assert_eq!(item.tokens, 3);
    assert!(item.last_updated >= before);
    assert!(before > 1_600_000_000);
}

#[test]
fn bucket_keeps_client_and_defaults() {
    let s = ten_per_second();
    let bucket = TokenBucket::new(MemoryStore::new(), s).unwrap();
    assert_eq!(bucket.default_settings, s);
    let (item, _) = bucket.client().get("x", s, 9);
    assert_eq!(item, RateLimitItem::at(10, 9));
}

#[test]
fn bucket_refuses_zero_interval_defaults() {
    let zero = RateLimitSettings { max_tokens: 10, starting_tokens: 10, refill_rate: 1, refill_interval: 0 };
    let result = TokenBucket::new(MemoryStore::new(), zero);
    assert!(matches!(result, Err(TokenBucketError::InvalidSettings)));
}
