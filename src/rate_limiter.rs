//! Sliding-window admission control.
//!
//! Time is a count of nanoseconds since an arbitrary monotonic origin chosen by
//! the caller; durations are nanoseconds too. The limiter never sleeps. A
//! blocking or paced request is answered with how long the caller has to wait;
//! a zero wait means the request was recorded at once. After a positive wait
//! the caller records its request with `attempt_commit` at the instant it
//! actually goes, and asks again if that fails (another caller took the slot in
//! the meantime).
//!
//! The instants handed to a limiter must never go back: each is at least the
//! newest one recorded (`settled_by`), as a monotonic clock read under the same
//! lock as the limiter guarantees.

use crate::ring::{ring_add, ring_capacity, ring_capacity_of, ring_contents, ring_new, ring_peek, ring_size};
use queues::CircularBuffer;
use vstd::prelude::*;

verus! {

/// Largest instant accepted as "now" (about 146 years of nanoseconds).
pub const MAX_INSTANT: u64 = 4611686018427387904;

/// Largest window or timeout accepted (about 73 years of nanoseconds).
pub const MAX_SPAN: u64 = 2305843009213693952;

/// Abstract state of a limiter.
pub ghost struct LimiterView {
    pub capacity: nat,
    pub window: nat,
    /// Recorded commit instants, oldest first.
    pub stamps: Seq<u64>,
}

impl LimiterView {
    pub open spec fn sorted(self) -> bool {
        forall|i: int, j: int| 0 <= i <= j < self.stamps.len() ==> self.stamps[i] <= self.stamps[j]
    }

    pub open spec fn wf(self) -> bool {
        &&& 0 < self.capacity
        &&& self.window <= MAX_SPAN
        &&& self.stamps.len() <= self.capacity
        &&& self.sorted()
        &&& forall|i: int| 0 <= i < self.stamps.len() ==> self.stamps[i] <= MAX_INSTANT
    }

    /// Every recorded instant is at or before `now`.
    pub open spec fn settled_by(self, now: int) -> bool {
        self.stamps.len() == 0 || self.stamps.last() <= now
    }

    pub open spec fn is_full(self) -> bool {
        self.stamps.len() >= self.capacity
    }

    /// A request is admissible when a slot is free or the oldest recorded
    /// commit lies a whole window behind `now`.
    pub open spec fn admissible_at(self, now: int) -> bool {
        !self.is_full() || now >= self.stamps[0] + self.window
    }

    /// How long a request made at `now` has to wait for a slot.
    pub open spec fn wait_at(self, now: int) -> int {
        if self.admissible_at(now) {
            0
        } else {
            self.stamps[0] + self.window - now
        }
    }

    /// The steady interval at which requests can go on forever.
    pub open spec fn average_pace(self) -> int {
        self.window as int / self.capacity as int
    }

    /// The state after a commit at `t`; when the record is full, its oldest
    /// instant leaves.
    pub open spec fn commit(self, t: u64) -> LimiterView {
        LimiterView {
            capacity: self.capacity,
            window: self.window,
            stamps: if self.is_full() {
                self.stamps.push(t).drop_first()
            } else {
                self.stamps.push(t)
            },
        }
    }

    /// Wait handed to a blocking request made at `now`: the wait for a slot,
    /// unless it exceeds `timeout`.
    pub open spec fn block_wait(self, now: int, timeout: int) -> Option<int> {
        if self.wait_at(now) <= timeout {
            Some(self.wait_at(now))
        } else {
            None
        }
    }

    /// Wait handed to a paced request made at `now`: one average pace when a
    /// slot is free within that time, else as for a blocking request.
    pub open spec fn pace_wait(self, now: int, timeout: int) -> Option<int> {
        if self.wait_at(now) < self.average_pace() {
            Some(self.average_pace())
        } else {
            self.block_wait(now, timeout)
        }
    }

    /// Consecutive recorded instants are at least one average pace apart.
    pub open spec fn spaced(self) -> bool {
        forall|i: int|
            0 <= i && i + 1 < self.stamps.len() ==> #[trigger] self.stamps[i] + self.average_pace()
                <= self.stamps[i + 1]
    }
}

/// A limiter admitting at most `capacity` requests in any window.
#[derive(Debug)]
pub struct RateLimiter {
    window: u64,
    prev_requests: CircularBuffer<u64>,
    /// The newest recorded instant (0 while nothing is recorded).
    latest: u64,
}

impl View for RateLimiter {
    type V = LimiterView;

    closed spec fn view(&self) -> LimiterView {
        LimiterView {
            capacity: ring_capacity(self.prev_requests),
            window: self.window as nat,
            stamps: ring_contents(self.prev_requests),
        }
    }
}

impl RateLimiter {
    pub closed spec fn wf(&self) -> bool {
        &&& self@.wf()
        &&& self@.capacity <= usize::MAX
        &&& self@.stamps.len() > 0 ==> self.latest == self@.stamps.last()
    }

    /// What a well-formed limiter guarantees of its abstract state.
    pub proof fn lemma_view_wf(&self)
        requires
            self.wf(),
        ensures
            self@.wf(),
            self@.capacity <= usize::MAX,
    {
    }

    /// A limiter admitting `num_requests` requests per `over_duration`.
    pub fn new(num_requests: usize, over_duration: u64) -> (r: Self)
        requires
            num_requests > 0,
            over_duration <= MAX_SPAN,
        ensures
            r.wf(),
            r@.capacity == num_requests,
            r@.window == over_duration,
            r@.stamps.len() == 0,
    {
        RateLimiter { window: over_duration, prev_requests: ring_new(num_requests), latest: 0 }
    }

    /// Most requests admitted in one window.
    pub fn capacity(&self) -> (r: usize)
        ensures
            r == self@.capacity,
    {
        ring_capacity_of(&self.prev_requests)
    }

    /// Length of the sliding window.
    pub fn window(&self) -> (r: u64)
        ensures
            r == self@.window,
    {
        self.window
    }

    /// Whether `now` may be handed to this limiter: it is within range and no
    /// recorded instant lies after it.
    pub fn accepts_time(&self, now: u64) -> (r: bool)
        requires
            self.wf(),
        ensures
            r == (now <= MAX_INSTANT && self@.settled_by(now as int)),
    {
        now <= MAX_INSTANT && (ring_size(&self.prev_requests) == 0 || self.latest <= now)
    }

    /// How long a request made at `now` has to wait for a slot; zero when it
    /// is admissible right away, and never more than the window.
    pub fn time_until_available(&self, now: u64) -> (r: u64)
        requires
            self.wf(),
        ensures
            r == self@.wait_at(now as int),
            self@.settled_by(now as int) ==> r <= self@.window,
    {
        let size = ring_size(&self.prev_requests);
        let cap = ring_capacity_of(&self.prev_requests);
        if size < cap {
            return 0;
        }
        match ring_peek(&self.prev_requests) {
            None => 0,
            Some(oldest) => {
                let free_at = oldest + self.window;
                if now >= free_at {
                    0
                } else {
                    free_at - now
                }
            },
        }
    }

    /// The window divided by the capacity: one request per this interval can
    /// go on forever without breaking the limit.
    pub fn get_average_pace(&self) -> (r: u64)
        requires
            self.wf(),
        ensures
            r == self@.average_pace(),
    {
        let cap = ring_capacity_of(&self.prev_requests) as u64;
        self.window / cap
    }

    /// Whether a request made at `now` is admissible; changes nothing.
    pub fn attempt(&self, now: u64) -> (r: bool)
        requires
            self.wf(),
        ensures
            r == self@.admissible_at(now as int),
    {
        self.time_until_available(now) == 0
    }

    /// Records a commit at `now`.
    fn commit_at(&mut self, now: u64)
        requires
            old(self).wf(),
            now <= MAX_INSTANT,
            old(self)@.settled_by(now as int),
        ensures
            final(self).wf(),
            final(self)@ == old(self)@.commit(now),
    {
        ring_add(&mut self.prev_requests, now);
        self.latest = now;
        proof {
            let v = old(self)@;
            let w = self@;
            assert forall|i: int, j: int| 0 <= i <= j < w.stamps.len() implies w.stamps[i]
                <= w.stamps[j] by {
                if !v.is_full() {
                    if j < v.stamps.len() {
                        assert(w.stamps[i] == v.stamps[i]);
                        assert(w.stamps[j] == v.stamps[j]);
                    } else if i < v.stamps.len() {
                        assert(w.stamps[i] == v.stamps[i]);
                        assert(v.stamps[i] <= v.stamps.last());
                    }
                } else {
                    if j + 1 < v.stamps.len() {
                        assert(w.stamps[i] == v.stamps[i + 1]);
                        assert(w.stamps[j] == v.stamps[j + 1]);
                    } else if i + 1 < v.stamps.len() {
                        assert(w.stamps[i] == v.stamps[i + 1]);
                        assert(v.stamps[i + 1] <= v.stamps.last());
                    }
                }
            }
        }
    }

    /// Commits a request made at `now` if it is admissible right away; leaves
    /// the limiter as it was otherwise.
    pub fn attempt_commit(&mut self, now: u64) -> (r: bool)
        requires
            old(self).wf(),
            now <= MAX_INSTANT,
            old(self)@.settled_by(now as int),
        ensures
            final(self).wf(),
            r == old(self)@.admissible_at(now as int),
            r ==> final(self)@ == old(self)@.commit(now),
            !r ==> final(self)@ == old(self)@,
    {
        if self.attempt(now) {
            self.commit_at(now);
            true
        } else {
            false
        }
    }

    /// A request made at `now` that may wait up to `timeout` for a slot.
    /// Admissible at once: it is recorded and the wait is zero. Otherwise,
    /// when the wait for a slot exceeds `timeout`, the result is `None`;
    /// else the result is that wait. In both of these cases nothing is
    /// recorded: the caller commits after waiting.
    pub fn block_then_commit(&mut self, now: u64, timeout: u64) -> (r: Option<u64>)
        requires
            old(self).wf(),
            now <= MAX_INSTANT,
            timeout <= MAX_SPAN,
            old(self)@.settled_by(now as int),
        ensures
            final(self).wf(),
            match old(self)@.block_wait(now as int, timeout as int) {
                None => r is None,
                Some(d) => r is Some && r->0 == d,
            },
            old(self)@.admissible_at(now as int) ==> r == Some(0u64) && final(self)@ == old(
                self,
            )@.commit(now),
            r == Some(0u64) ==> final(self)@ == old(self)@.commit(now),
            r != Some(0u64) ==> final(self)@ == old(self)@,
            r is Some ==> r->0 <= old(self)@.window,
    {
        let wait = self.time_until_available(now);
        if wait == 0 {
            self.commit_at(now);
            Some(0)
        } else if wait > timeout {
            None
        } else {
            Some(wait)
        }
    }

    /// A request made at `now`, spread out to about one per average pace.
    /// When a slot is free within one average pace, the wait is exactly one
    /// average pace; otherwise the request is handled as by
    /// `block_then_commit`, with the same `timeout`. Only a zero wait records
    /// the request; after a positive wait the caller commits.
    pub fn block_for_average_pace_then_commit(&mut self, now: u64, timeout: u64) -> (r: Option<
        u64,
    >)
        requires
            old(self).wf(),
            now <= MAX_INSTANT,
            timeout <= MAX_SPAN,
            old(self)@.settled_by(now as int),
        ensures
            final(self).wf(),
            match old(self)@.pace_wait(now as int, timeout as int) {
                None => r is None,
                Some(d) => r is Some && r->0 == d,
            },
            old(self)@.wait_at(now as int) < old(self)@.average_pace() ==> r == Some(
                old(self)@.average_pace() as u64,
            ),
            r is Some ==> old(self)@.average_pace() <= r->0,
            r is Some ==> r->0 <= old(self)@.average_pace() || r->0 == old(self)@.wait_at(
                now as int,
            ),
            r is None <==> (old(self)@.wait_at(now as int) >= old(self)@.average_pace()
                && old(self)@.wait_at(now as int) > timeout),
            r == Some(0u64) ==> final(self)@ == old(self)@.commit(now),
            r != Some(0u64) ==> final(self)@ == old(self)@,
    {
        let pace = self.get_average_pace();
        let wait = self.time_until_available(now);
        if wait < pace {
            Some(pace)
        } else {
            self.block_then_commit(now, timeout)
        }
    }
}

/// After the wait handed out at `now` (by either kind of request) is over, a
/// request is admissible, as long as nothing else was recorded meanwhile: the
/// commit that follows the wait succeeds.
pub proof fn lemma_admissible_after_wait(v: LimiterView, now: int, d: int, later: int)
    requires
        v.wait_at(now) <= d,
        later >= now + d,
    ensures
        v.admissible_at(later),
{
}

/// The state after commits at each instant of `ts`, in order.
pub open spec fn commit_all(v: LimiterView, ts: Seq<u64>) -> LimiterView
    decreases ts.len(),
{
    if ts.len() == 0 {
        v
    } else {
        commit_all(v, ts.drop_last()).commit(ts.last())
    }
}

proof fn lemma_commit_all_shape(v: LimiterView, ts: Seq<u64>)
    requires
        v.stamps.len() == 0,
        ts.len() <= v.capacity,
    ensures
        commit_all(v, ts).capacity == v.capacity,
        commit_all(v, ts).window == v.window,
        commit_all(v, ts).stamps == ts,
    decreases ts.len(),
{
    if ts.len() > 0 {
        lemma_commit_all_shape(v, ts.drop_last());
        assert(ts.drop_last().push(ts.last()) =~= ts);
    }
}

/// On a fresh limiter, `capacity` requests made one after another, at any
/// instants `ts`, are each admissible when made; once they are recorded, a
/// further request is admissible exactly from one whole window after the first
/// of them.
pub proof fn lemma_burst_then_refuse(v: LimiterView, ts: Seq<u64>, later: int)
    requires
        v.wf(),
        v.stamps.len() == 0,
        ts.len() == v.capacity,
    ensures
        forall|k: int| 0 <= k < ts.len() ==> #[trigger] commit_all(v, ts.take(k)).admissible_at(
            ts[k] as int,
        ),
        commit_all(v, ts).stamps == ts,
        commit_all(v, ts).admissible_at(later) <==> later >= ts[0] + v.window,
{
    assert forall|k: int| 0 <= k < ts.len() implies #[trigger] commit_all(v, ts.take(k)).admissible_at(
        ts[k] as int,
    ) by {
        lemma_commit_all_shape(v, ts.take(k));
    }
    lemma_commit_all_shape(v, ts);
}

proof fn lemma_spread(v: LimiterView, j: int)
    requires
        v.spaced(),
        0 <= j < v.stamps.len(),
        v.average_pace() >= 0,
    ensures
        v.stamps[j] - v.stamps[0] >= j * v.average_pace(),
    decreases j,
{
    if j > 0 {
        lemma_spread(v, j - 1);
        let p = v.average_pace();
        let a = v.stamps[j - 1] as int;
        let b = v.stamps[j] as int;
        let z = v.stamps[0] as int;
        assert(a + p <= b);
        assert(a - z >= (j - 1) * p);
        assert(j * p == (j - 1) * p + p) by (nonlinear_arith);
        assert(b - z >= j * p);
    } else {
        assert(j * v.average_pace() == 0) by (nonlinear_arith)
            requires
                j == 0,
        ;
    }
}

/// One step of a caller that makes paced requests back to back. From a state
/// whose recorded instants are one average pace apart or more (a fresh one, or
/// any that such a caller leaves), a request made at or after the newest
/// recorded instant, with a timeout of at least the window:
/// - is granted, with a wait between one average pace and one average pace
///   plus the remainder of the window divided by the capacity;
/// - once the caller commits after its wait, the state is again spaced, and
///   the new instant lies at least one average pace after the one before it;
/// - when the caller asks right at the newest instant and goes as soon as its
///   wait is over, the two instants are at most one average pace plus that
///   remainder apart.
pub proof fn lemma_paced_step(v: LimiterView, now: int, timeout: int, c: u64)
    requires
        v.wf(),
        v.spaced(),
        v.settled_by(now),
        timeout >= v.window,
        v.pace_wait(now, timeout) is Some,
        c >= now + v.pace_wait(now, timeout)->0,
    ensures
        v.pace_wait(now, timeout)->0 >= v.average_pace(),
        v.pace_wait(now, timeout)->0 <= v.average_pace() + v.window as int % v.capacity as int,
        v.commit(c).spaced(),
        v.stamps.len() > 0 ==> c >= v.stamps.last() + v.average_pace(),
        v.stamps.len() > 0 && now == v.stamps.last() && c == now + v.pace_wait(now, timeout)->0
            ==> c - v.stamps.last() <= v.average_pace() + v.window as int % v.capacity as int,
{
    let p = v.average_pace();
    let cap = v.capacity as int;
    let w = v.window as int;
    assert(w == cap * p + w % cap) by (nonlinear_arith)
        requires
            p == w / cap,
            cap > 0,
    ;
    assert(p >= 0) by (nonlinear_arith)
        requires
            p == w / cap,
            cap > 0,
            w >= 0,
    ;
    if v.is_full() {
        let n = v.stamps.len() as int;
        lemma_spread(v, n - 1);
        assert(v.stamps.last() == v.stamps[n - 1]);
        assert((n - 1) * p == cap * p - p) by (nonlinear_arith)
            requires
                n == cap,
        ;
        assert(w % cap >= 0) by (nonlinear_arith)
            requires
                cap > 0,
        ;
    }
    let d = v.pace_wait(now, timeout)->0;
    let u = v.commit(c);
    assert forall|i: int| 0 <= i && i + 1 < u.stamps.len() implies #[trigger] u.stamps[i]
        + u.average_pace() <= u.stamps[i + 1] by {
        if v.is_full() {
            if i + 2 < v.stamps.len() {
                assert(u.stamps[i] == v.stamps[i + 1]);
                assert(u.stamps[i + 1] == v.stamps[i + 2]);
            } else {
                assert(u.stamps[i] == v.stamps.last());
            }
        } else {
            if i + 1 < v.stamps.len() {
                assert(u.stamps[i] == v.stamps[i]);
            } else {
                assert(u.stamps[i] == v.stamps.last());
            }
        }
    }
}

} // verus!
