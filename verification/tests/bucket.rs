use sparkler::firecracker::api::model::{refill, try_consume, TokenBucketState};
use sparkler::firecracker::api::TokenBucket;

fn bucket() -> TokenBucket {
    TokenBucket { one_time_burst: Some(500), refill_time: 100, size: 1000 }
}

#[test]
fn refill_rate_is_size_over_refill_time() {
    let b = TokenBucket { one_time_burst: None, refill_time: 100, size: 1000 };
    assert_eq!(b.refill_rate(), 10);
    let slow = TokenBucket { one_time_burst: None, refill_time: 1000, size: 100 };
    assert_eq!(slow.refill_rate(), 0);
}

#[test]
fn initial_state_has_capacity_and_burst() {
    let st = bucket().initial_state();
    assert_eq!(st.burst_remaining, 500);
    assert_eq!(st.tokens, 1000);
    let no_burst = TokenBucket { one_time_burst: None, refill_time: 1, size: 7 }.initial_state();
    assert_eq!(no_burst.burst_remaining, 0);
    assert_eq!(no_burst.tokens, 7);
}

#[test]
fn burst_consumption_leaves_the_tokens_alone() {
    let st = bucket().initial_state();
    let after = try_consume(st, 300).expect("within burst");
    assert_eq!(after.burst_remaining, 200);
    assert_eq!(after.tokens, 1000);
}

#[test]
fn consumption_beyond_the_burst_drains_the_bucket() {
    let st = bucket().initial_state();
    let after = try_consume(st, 700).expect("burst plus tokens cover it");
    assert_eq!(after.burst_remaining, 0);
    assert_eq!(after.tokens, 800);
}

#[test]
fn consumption_beyond_the_budget_is_refused() {
    let st = bucket().initial_state();
    assert_eq!(try_consume(st, 1501), None);
    assert!(try_consume(st, 1500).is_some());
}

#[test]
fn no_refill_while_burst_remains() {
    let b = bucket();
    let st = TokenBucketState { burst_remaining: 1, tokens: 100 };
    assert_eq!(refill(&b, st, 100000), st);
}

#[test]
fn refill_caps_at_the_capacity() {
    let b = bucket();
    let low = TokenBucketState { burst_remaining: 0, tokens: 100 };
    // ten tokens per millisecond
    assert_eq!(refill(&b, low, 5), TokenBucketState { burst_remaining: 0, tokens: 150 });
    assert_eq!(refill(&b, low, 90), TokenBucketState { burst_remaining: 0, tokens: 1000 });
    assert_eq!(refill(&b, low, u64::MAX), TokenBucketState { burst_remaining: 0, tokens: 1000 });
}
