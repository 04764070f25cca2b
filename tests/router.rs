use market_hub::envelope::{copy_pairs, InternalPacket, Method};
use market_hub::router::{
    admission_timeout, dispatch_decision, error_text, respond, response_text, throttled_response,
    traffic_class, Dispatch, Limiters, TrafficClass, READ_TIMEOUT, WRITE_TIMEOUT,
};

const MS: u64 = 1_000_000;

fn packet(method: Method) -> InternalPacket {
    InternalPacket::new(
        "bawt".to_string(),
        method,
        "bet".to_string(),
        vec![("a".to_string(), "1".to_string())],
        Some(serde_json::Value::Bool(true)),
    )
}

#[test]
fn new_packet_has_no_response() {
    let p = packet(Method::Post);
    assert_eq!(p.bot_id, "bawt");
    assert_eq!(p.method, Method::Post);
    assert_eq!(p.endpoint, "bet");
    assert_eq!(p.response, None);
    assert_eq!(p.data, Some(serde_json::Value::Bool(true)));
}

#[test]
fn response_keeps_request_fields() {
    let p = packet(Method::Get);
    let r = InternalPacket::response_from_existing(&p, "{\"ok\":1}".to_string());
    assert_eq!(r.bot_id, "bawt");
    assert_eq!(r.method, Method::Get);
    assert_eq!(r.endpoint, "bet");
    assert_eq!(r.query_params, vec![("a".to_string(), "1".to_string())]);
    assert_eq!(r.data, Some(serde_json::Value::Bool(true)));
    assert_eq!(r.response, Some("{\"ok\":1}".to_string()));
}

#[test]
fn copy_pairs_keeps_order() {
    let v = vec![("x".to_string(), "1".to_string()), ("y".to_string(), "2".to_string())];
    assert_eq!(copy_pairs(&v), v);
    assert_eq!(copy_pairs(&vec![]), vec![]);
}

#[test]
fn classes_and_timeouts() {
    assert_eq!(traffic_class(Method::Get), TrafficClass::Read);
    assert_eq!(traffic_class(Method::Post), TrafficClass::Write);
    assert_eq!(admission_timeout(TrafficClass::Read), READ_TIMEOUT);
    assert_eq!(admission_timeout(TrafficClass::Write), WRITE_TIMEOUT);
    assert_eq!(READ_TIMEOUT, 1_000 * MS);
    assert_eq!(WRITE_TIMEOUT, 60_000 * MS);
}

#[test]
fn default_limiters_budgets() {
    let l = Limiters::new();
    assert_eq!(l.read.capacity(), 90);
    assert_eq!(l.read.window(), 1_000 * MS);
    assert_eq!(l.write.capacity(), 9);
    assert_eq!(l.write.window(), 60_000 * MS);
}

#[test]
fn halted_dispatcher_makes_no_call() {
    let mut l = Limiters::new();
    assert_eq!(dispatch_decision(true, &mut l, Method::Get, 0), Dispatch::Halt);
    assert_eq!(dispatch_decision(true, &mut l, Method::Post, 0), Dispatch::Halt);
    assert_eq!(l.read.time_until_available(0), 0);
    assert_eq!(l.write.time_until_available(0), 0);
}

#[test]
fn write_uses_write_budget_only() {
    let mut l = Limiters::new();
    // pace of the write class: 60 s / 9
    assert_eq!(
        dispatch_decision(false, &mut l, Method::Post, 0),
        Dispatch::Call { wait: 6_666_666_666 }
    );
    // the read budget is untouched: 90 reads in a row get their pace
    for i in 0..90u64 {
        let now = i * 100 * MS;
        match dispatch_decision(false, &mut l, Method::Get, now) {
            Dispatch::Call { wait } => assert!(wait >= 11 * MS),
            other => panic!("unexpected {:?}", other),
        }
    }
}

#[test]
fn write_budget_exhausted_waits_for_a_window() {
    let mut l = Limiters::new();
    for _ in 0..9 {
        assert!(l.write.attempt_commit(0));
    }
    assert_eq!(
        dispatch_decision(false, &mut l, Method::Post, 0),
        Dispatch::Call { wait: 60_000 * MS }
    );
    // the slot is taken when the dispatcher goes, on the write budget only
    assert!(!l.confirm(Method::Post, 59_999 * MS));
    assert!(l.confirm(Method::Post, 60_000 * MS));
    assert_eq!(l.write.time_until_available(60_000 * MS), 0);
    assert!(l.confirm(Method::Get, 60_000 * MS));
    assert!(l.accepts_time(60_000 * MS));
    assert!(!l.accepts_time(59_000 * MS));
}

#[test]
fn throttled_request_is_answered() {
    let r = throttled_response(&packet(Method::Post));
    assert_eq!(r.response, Some("api error rate limiter timed out".to_string()));
    assert_eq!(r.bot_id, "bawt");
    assert_eq!(r.method, Method::Post);
}

#[test]
fn failed_call_is_answered_with_error_text() {
    let p = packet(Method::Get);
    let r = respond(&p, Err("500 Internal Server Error".to_string()));
    assert_eq!(r.response, Some("api error 500 Internal Server Error".to_string()));
    assert_eq!(r.bot_id, "bawt");
    let ok = respond(&p, Ok("[]".to_string()));
    assert_eq!(ok.response, Some("[]".to_string()));
}

#[test]
fn error_and_response_texts() {
    assert_eq!(error_text("boom"), "api error boom");
    assert_eq!(error_text(""), "api error ");
    assert_eq!(response_text(Ok("body".to_string())), "body");
    assert_eq!(response_text(Err("bad".to_string())), "api error bad");
}
