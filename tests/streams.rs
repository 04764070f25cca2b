use market_hub::rate_limiter::RateLimiter;
use market_hub::streams::{PollStep, StreamPoller, POLL_INTERVAL, POLL_TIMEOUT};

const MS: u64 = 1_000_000;

fn pair(a: &str, b: &str) -> (String, String) {
    (a.to_string(), b.to_string())
}

fn ids(v: &[&str]) -> Vec<String> {
    v.iter().map(|s| s.to_string()).collect()
}

#[test]
fn first_fetch_seeds_cursor_without_delivering() {
    let mut p = StreamPoller::new(vec![pair("contractId", "m1")]);
    assert_eq!(p.current_cursor(), None);
    assert_eq!(p.next_query(), vec![pair("contractId", "m1"), pair("limit", "1")]);
    assert!(!p.record_batch(&ids(&["b7"])));
    assert_eq!(p.current_cursor(), Some("b7".to_string()));
    assert_eq!(p.next_query(), vec![pair("contractId", "m1"), pair("after", "b7")]);
}

#[test]
fn delivered_batch_moves_cursor_to_last_event() {
    let mut p = StreamPoller::new(vec![]);
    p.record_batch(&ids(&["a"]));
    assert!(p.record_batch(&ids(&["b", "c", "d"])));
    assert_eq!(p.current_cursor(), Some("d".to_string()));
    assert_eq!(p.next_query(), vec![pair("after", "d")]);
}

#[test]
fn empty_batch_keeps_cursor() {
    let mut p = StreamPoller::new(vec![pair("userId", "u")]);
    p.record_batch(&ids(&["x"]));
    assert!(p.record_batch(&ids(&[])));
    assert_eq!(p.current_cursor(), Some("x".to_string()));
    assert_eq!(p.next_query(), vec![pair("userId", "u"), pair("after", "x")]);
}

#[test]
fn empty_seed_delivers_later_events() {
    let mut p = StreamPoller::new(vec![pair("contractId", "m1")]);
    assert!(!p.record_batch(&ids(&[])));
    assert_eq!(p.current_cursor(), None);
    assert_eq!(p.next_query(), vec![pair("contractId", "m1")]);
    assert!(p.record_batch(&ids(&["first"])));
    assert_eq!(p.next_query(), vec![pair("contractId", "m1"), pair("after", "first")]);
}

#[test]
fn halted_poller_stops_and_takes_no_slot() {
    let p = StreamPoller::new(vec![]);
    let mut rl = RateLimiter::new(1, 100 * MS);
    assert!(matches!(p.next_step(true, &mut rl, 0), PollStep::Stop));
    assert!(rl.attempt(0));
}

#[test]
fn running_poller_fetches_after_pace() {
    let mut p = StreamPoller::new(vec![pair("contractId", "m1")]);
    p.record_batch(&ids(&["b1"]));
    let mut rl = RateLimiter::new(90, 900 * MS);
    match p.next_step(false, &mut rl, 0) {
        PollStep::Fetch { wait, query } => {
            assert_eq!(wait, 10 * MS);
            assert_eq!(query, vec![pair("contractId", "m1"), pair("after", "b1")]);
        }
        other => panic!("expected a fetch, got {:?}", other),
    }
    // nothing was recorded: the poller commits once its wait is over
    assert!(rl.attempt(0));
    assert!(rl.attempt_commit(10 * MS));
}

#[test]
fn poller_with_zero_pace_takes_slot_at_once() {
    let p = StreamPoller::new(vec![]);
    let mut rl = RateLimiter::new(3, 2);
    match p.next_step(false, &mut rl, 5) {
        PollStep::Fetch { wait, query } => {
            assert_eq!(wait, 0);
            assert_eq!(query, vec![pair("limit", "1")]);
        }
        other => panic!("expected a fetch, got {:?}", other),
    }
    // the slot was taken: only two more fit in the window
    assert!(rl.attempt_commit(5));
    assert!(rl.attempt_commit(5));
    assert!(!rl.attempt_commit(5));
}

#[test]
fn starved_poller_backs_off() {
    let p = StreamPoller::new(vec![]);
    let mut rl = RateLimiter::new(2, 10_000 * MS);
    assert!(rl.attempt_commit(0));
    assert!(rl.attempt_commit(0));
    assert!(matches!(p.next_step(false, &mut rl, MS), PollStep::Backoff));
    assert_eq!(rl.time_until_available(MS), 9_999 * MS);
}

#[test]
fn poll_timing_constants() {
    assert_eq!(POLL_TIMEOUT, 500 * MS);
    assert_eq!(POLL_INTERVAL, 500 * MS);
}
