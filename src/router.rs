//! The decisions of the dispatcher: the single consumer of the queue that all
//! bots submit requests to. Each request goes through the rate limiter of its
//! traffic class; its answer goes back to the bot that sent it.

use crate::envelope::{InternalPacket, Method};
use crate::rate_limiter::{LimiterView, RateLimiter, MAX_INSTANT};
use crate::streams::poll_issues_call;
use vstd::prelude::*;
use vstd::string::*;

verus! {

/// Longest wait for a read slot before a request is answered as throttled.
pub const READ_TIMEOUT: u64 = 1000000000;

/// Longest wait for a write slot before a request is answered as throttled.
pub const WRITE_TIMEOUT: u64 = 60000000000;

/// Reads admitted per read window; a little under the remote API's limit.
pub const READ_CAPACITY: usize = 90;

/// Length of the read window.
pub const READ_WINDOW: u64 = 1000000000;

/// Writes admitted per write window; a little under the remote API's limit.
pub const WRITE_CAPACITY: usize = 9;

/// Length of the write window.
pub const WRITE_WINDOW: u64 = 60000000000;

/// Which rate budget a request draws on.
#[derive(Debug, Clone, Copy, PartialEq, Eq, Structural)]
pub enum TrafficClass {
    Read,
    Write,
}

pub open spec fn class_of(m: Method) -> TrafficClass {
    match m {
        Method::Get => TrafficClass::Read,
        Method::Post => TrafficClass::Write,
    }
}

pub open spec fn timeout_of(c: TrafficClass) -> u64 {
    match c {
        TrafficClass::Read => READ_TIMEOUT,
        TrafficClass::Write => WRITE_TIMEOUT,
    }
}

/// GETs are reads, POSTs are writes.
pub fn traffic_class(method: Method) -> (r: TrafficClass)
    ensures
        r == class_of(method),
{
    match method {
        Method::Get => TrafficClass::Read,
        Method::Post => TrafficClass::Write,
    }
}

/// How long a request of class `c` may wait for a slot.
pub fn admission_timeout(c: TrafficClass) -> (r: u64)
    ensures
        r == timeout_of(c),
{
    match c {
        TrafficClass::Read => READ_TIMEOUT,
        TrafficClass::Write => WRITE_TIMEOUT,
    }
}

/// One limiter per traffic class.
#[derive(Debug)]
pub struct Limiters {
    pub read: RateLimiter,
    pub write: RateLimiter,
}

impl Limiters {
    pub open spec fn wf(&self) -> bool {
        self.read.wf() && self.write.wf()
    }

    /// Both limiters may be handed `now`.
    pub open spec fn settled_by(&self, now: int) -> bool {
        self.read@.settled_by(now) && self.write@.settled_by(now)
    }

    pub open spec fn limiter_view(&self, c: TrafficClass) -> LimiterView {
        match c {
            TrafficClass::Read => self.read@,
            TrafficClass::Write => self.write@,
        }
    }

    /// Fresh limiters with the hub's read and write budgets.
    pub fn new() -> (r: Self)
        ensures
            r.wf(),
            r.read@.capacity == READ_CAPACITY,
            r.read@.window == READ_WINDOW,
            r.read@.stamps.len() == 0,
            r.write@.capacity == WRITE_CAPACITY,
            r.write@.window == WRITE_WINDOW,
            r.write@.stamps.len() == 0,
    {
        Limiters {
            read: RateLimiter::new(READ_CAPACITY, READ_WINDOW),
            write: RateLimiter::new(WRITE_CAPACITY, WRITE_WINDOW),
        }
    }

    /// Whether `now` may be handed to both limiters.
    pub fn accepts_time(&self, now: u64) -> (r: bool)
        requires
            self.wf(),
        ensures
            r == (now <= MAX_INSTANT && self.settled_by(now as int)),
    {
        self.read.accepts_time(now) && self.write.accepts_time(now)
    }

    /// Takes, at `now`, the slot that a request of `method` waited for: a
    /// commit on the limiter of its class, which succeeds exactly when the
    /// request is admissible. The other limiter is left alone.
    pub fn confirm(&mut self, method: Method, now: u64) -> (r: bool)
        requires
            old(self).wf(),
            now <= MAX_INSTANT,
            old(self).settled_by(now as int),
        ensures
            final(self).wf(),
            ({
                let c = class_of(method);
                let v = old(self).limiter_view(c);
                &&& r == v.admissible_at(now as int)
                &&& r ==> final(self).limiter_view(c) == v.commit(now)
                &&& !r ==> final(self).limiter_view(c) == v
            }),
            class_of(method) == TrafficClass::Read ==> final(self).write@ == old(self).write@,
            class_of(method) == TrafficClass::Write ==> final(self).read@ == old(self).read@,
    {
        match traffic_class(method) {
            TrafficClass::Read => self.read.attempt_commit(now),
            TrafficClass::Write => self.write.attempt_commit(now),
        }
    }
}

/// Whether the dispatcher's turn at `now` for a request of `method` issues a
/// call to the remote API.
pub open spec fn dispatch_issues_call(
    halted: bool,
    limiters_read: LimiterView,
    limiters_write: LimiterView,
    method: Method,
    now: int,
) -> bool {
    let c = class_of(method);
    let v = match c {
        TrafficClass::Read => limiters_read,
        TrafficClass::Write => limiters_write,
    };
    !halted && v.pace_wait(now, timeout_of(c) as int) is Some
}

/// What the dispatcher does with a request it has taken from the queue.
#[derive(Debug, Clone, Copy, PartialEq, Eq, Structural)]
pub enum Dispatch {
    /// The halt signal is set: leave the loop without calling.
    Halt,
    /// No slot came free in time: answer the bot with an error.
    Throttled,
    /// Make the call: at once when `wait` is zero (the slot is already
    /// taken), else after waiting `wait` nanoseconds and then taking the slot
    /// with `Limiters::confirm` (deciding again if that fails).
    Call { wait: u64 },
}

/// The dispatcher's decision at `now` for a request of `method`. When
/// `halted`, nothing is taken from the limiters. Otherwise the request asks
/// the limiter of its class for a paced slot, waiting at most that class's
/// timeout; the other limiter is left alone.
pub fn dispatch_decision(halted: bool, limiters: &mut Limiters, method: Method, now: u64) -> (r:
    Dispatch)
    requires
        old(limiters).wf(),
        now <= MAX_INSTANT,
        old(limiters).settled_by(now as int),
    ensures
        final(limiters).wf(),
        (r is Call) == dispatch_issues_call(
            halted,
            old(limiters).read@,
            old(limiters).write@,
            method,
            now as int,
        ),
        halted ==> r is Halt,
        r is Halt <==> halted,
        ({
            let c = class_of(method);
            let v = old(limiters).limiter_view(c);
            match r {
                Dispatch::Call { wait } => {
                    &&& v.pace_wait(now as int, timeout_of(c) as int) == Some(wait as int)
                    &&& wait == 0 ==> final(limiters).limiter_view(c) == v.commit(now)
                    &&& wait != 0 ==> final(limiters).limiter_view(c) == v
                },
                _ => final(limiters).limiter_view(c) == v,
            }
        }),
        class_of(method) == TrafficClass::Read ==> final(limiters).write@ == old(limiters).write@,
        class_of(method) == TrafficClass::Write ==> final(limiters).read@ == old(limiters).read@,
{
    if halted {
        return Dispatch::Halt;
    }
    let class = traffic_class(method);
    let timeout = admission_timeout(class);
    let granted = match class {
        TrafficClass::Read => limiters.read.block_for_average_pace_then_commit(now, timeout),
        TrafficClass::Write => limiters.write.block_for_average_pace_then_commit(now, timeout),
    };
    match granted {
        None => Dispatch::Throttled,
        Some(wait) => Dispatch::Call { wait },
    }
}

/// Text that tells a bot its request failed: `api error <description>`.
pub fn error_text(description: &str) -> (r: String)
    ensures
        r@ == "api error "@ + description@,
{
    String::from_str("api error ").concat(description)
}

/// The body of the answer to a request: what the remote API returned, or the
/// error text for what went wrong.
pub fn response_text(outcome: Result<String, String>) -> (r: String)
    ensures
        match outcome {
            Ok(body) => r@ == body@,
            Err(e) => r@ == "api error "@ + e@,
        },
{
    match outcome {
        Ok(body) => body,
        Err(e) => error_text(e.as_str()),
    }
}

/// The answer to `packet`: the request itself, carrying the response body or
/// the error text. A failed call is answered too, never dropped.
pub fn respond(packet: &InternalPacket, outcome: Result<String, String>) -> (r: InternalPacket)
    ensures
        r.bot_id == packet.bot_id,
        r.method == packet.method,
        r.endpoint == packet.endpoint,
        r.query_params@ == packet.query_params@,
        r.data == packet.data,
        r.response is Some,
        match outcome {
            Ok(body) => r.response->0@ == body@,
            Err(e) => r.response->0@ == "api error "@ + e@,
        },
{
    InternalPacket::response_from_existing(packet, response_text(outcome))
}

/// The answer to a request that no rate-limiter slot was found for in time.
pub fn throttled_response(packet: &InternalPacket) -> (r: InternalPacket)
    ensures
        r.bot_id == packet.bot_id,
        r.method == packet.method,
        r.endpoint == packet.endpoint,
        r.query_params@ == packet.query_params@,
        r.data == packet.data,
        r.response is Some,
        r.response->0@ == "api error "@ + "rate limiter timed out"@,
{
    InternalPacket::response_from_existing(packet, error_text("rate limiter timed out"))
}

/// Once the halt signal is seen, no turn of a poller or of the dispatcher
/// issues a call to the remote API, whatever the limiters hold.
pub proof fn lemma_halt_stops_calls(
    poll_limiter: LimiterView,
    read: LimiterView,
    write: LimiterView,
    method: Method,
    now: int,
)
    ensures
        !poll_issues_call(true, poll_limiter, now),
        !dispatch_issues_call(true, read, write, method, now),
{
}

} // verus!
