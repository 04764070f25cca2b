//! The decisions of a stream poller: one runs per stream key, fetches the
//! events after its cursor at a paced rate, and hands each batch to every
//! subscriber of the key.
//!
//! A poller starts unseeded. Its first fetch asks for the single most recent
//! event, which only seeds the cursor: subscribers see what happens after they
//! subscribed, not the history before it. When the stream has no event yet,
//! the poller is seeded with no cursor, and every event that appears later is
//! delivered.
//!
//! The subscribers of a key share one bounded broadcast channel. This is a
//! deliberate trade-off: a subscriber that falls behind loses its oldest
//! unread events, rather than holding up the poller or the other subscribers.

use crate::envelope::copy_pairs;
use crate::rate_limiter::{LimiterView, RateLimiter, MAX_INSTANT};
use vstd::prelude::*;
use vstd::string::*;

verus! {

/// Longest wait for a rate-limiter slot before a poller gives up on a turn.
pub const POLL_TIMEOUT: u64 = 500000000;

/// Pause between two turns of a poller.
pub const POLL_INTERVAL: u64 = 500000000;

/// A list of query parameters as pairs of character sequences.
pub open spec fn pairs_view(s: Seq<(String, String)>) -> Seq<(Seq<char>, Seq<char>)> {
    s.map_values(|p: (String, String)| (p.0@, p.1@))
}

/// The query of the next fetch: the stream's own parameters, then
/// `after=<cursor>` when there is a cursor, or `limit=1` while the poller is
/// not seeded yet.
pub open spec fn fetch_query(
    params: Seq<(Seq<char>, Seq<char>)>,
    seeded: bool,
    cursor: Option<Seq<char>>,
) -> Seq<(Seq<char>, Seq<char>)> {
    match cursor {
        Some(c) => params.push(("after"@, c)),
        None => if seeded {
            params
        } else {
            params.push(("limit"@, "1"@))
        },
    }
}

/// The cursor after a successful fetch that returned events with ids `ids`, in
/// order: the last id, or the old cursor when the batch was empty.
pub open spec fn cursor_after(cursor: Option<Seq<char>>, ids: Seq<Seq<char>>) -> Option<Seq<char>> {
    if ids.len() > 0 {
        Some(ids.last())
    } else {
        cursor
    }
}

/// Whether a poller's turn at `now` issues a call to the remote API.
pub open spec fn poll_issues_call(halted: bool, limiter: LimiterView, now: int) -> bool {
    !halted && limiter.pace_wait(now, POLL_TIMEOUT as int) is Some
}

/// What a poller does on one turn of its loop.
#[derive(Debug)]
pub enum PollStep {
    /// The halt signal is set: leave the loop.
    Stop,
    /// No rate-limiter slot came free in time: try again on the next turn.
    Backoff,
    /// Fetch with `query`: at once when `wait` is zero (the slot is already
    /// taken), else after waiting `wait` nanoseconds and then taking the slot
    /// with `RateLimiter::attempt_commit` (asking again if that fails).
    Fetch { wait: u64, query: Vec<(String, String)> },
}

/// The state of the poller of one stream.
#[derive(Debug)]
pub struct StreamPoller {
    query_params: Vec<(String, String)>,
    seeded: bool,
    cursor: Option<String>,
}

impl StreamPoller {
    pub closed spec fn params(&self) -> Seq<(Seq<char>, Seq<char>)> {
        pairs_view(self.query_params@)
    }

    pub closed spec fn is_seeded(&self) -> bool {
        self.seeded
    }

    pub closed spec fn cursor(&self) -> Option<Seq<char>> {
        match self.cursor {
            Some(c) => Some(c@),
            None => None,
        }
    }

    /// A poller for a stream with the given query parameters, not seeded yet.
    pub fn new(query_params: Vec<(String, String)>) -> (r: Self)
        ensures
            r.params() == pairs_view(query_params@),
            !r.is_seeded(),
            r.cursor() is None,
    {
        StreamPoller { query_params, seeded: false, cursor: None }
    }

    /// The id of the last event seen, if any.
    pub fn current_cursor(&self) -> (r: Option<String>)
        ensures
            match r {
                Some(c) => self.cursor() == Some(c@),
                None => self.cursor() is None,
            },
    {
        match &self.cursor {
            Some(c) => Some(c.clone()),
            None => None,
        }
    }

    /// The query of the next fetch.
    pub fn next_query(&self) -> (r: Vec<(String, String)>)
        ensures
            pairs_view(r@) == fetch_query(self.params(), self.is_seeded(), self.cursor()),
    {
        let mut q = copy_pairs(&self.query_params);
        match &self.cursor {
            Some(c) => q.push((String::from_str("after"), c.clone())),
            None => {
                if !self.seeded {
                    q.push((String::from_str("limit"), String::from_str("1")));
                }
            },
        }
        assert(pairs_view(q@) =~= fetch_query(self.params(), self.is_seeded(), self.cursor()));
        q
    }

    /// One turn of the poller's loop at `now`. When `halted`, nothing is
    /// taken from the limiter and the poller stops. Otherwise it asks for a
    /// paced slot; when none comes within `POLL_TIMEOUT` it backs off, and else
    /// it fetches the next query once the slot's wait is over.
    pub fn next_step(&self, halted: bool, limiter: &mut RateLimiter, now: u64) -> (r: PollStep)
        requires
            old(limiter).wf(),
            now <= MAX_INSTANT,
            old(limiter)@.settled_by(now as int),
        ensures
            final(limiter).wf(),
            (r is Fetch) == poll_issues_call(halted, old(limiter)@, now as int),
            halted ==> r is Stop,
            match r {
                PollStep::Fetch { wait, query } => {
                    &&& old(limiter)@.pace_wait(now as int, POLL_TIMEOUT as int) == Some(
                        wait as int,
                    )
                    &&& wait == 0 ==> final(limiter)@ == old(limiter)@.commit(now)
                    &&& wait != 0 ==> final(limiter)@ == old(limiter)@
                    &&& pairs_view(query@) == fetch_query(
                        self.params(),
                        self.is_seeded(),
                        self.cursor(),
                    )
                },
                _ => final(limiter)@ == old(limiter)@,
            },
    {
        if halted {
            return PollStep::Stop;
        }
        match limiter.block_for_average_pace_then_commit(now, POLL_TIMEOUT) {
            None => PollStep::Backoff,
            Some(wait) => PollStep::Fetch { wait, query: self.next_query() },
        }
    }

    /// Takes in a successful fetch whose events have ids `ids`, in order.
    /// Returns whether the events go to the subscribers: they do, except for
    /// the seeding fetch. A non-empty batch moves the cursor to its last id.
    pub fn record_batch(&mut self, ids: &Vec<String>) -> (deliver: bool)
        ensures
            deliver == old(self).is_seeded(),
            final(self).is_seeded(),
            final(self).params() == old(self).params(),
            final(self).cursor() == cursor_after(old(self).cursor(), ids@.map_values(|s: String| s@)),
    {
        let deliver = self.seeded;
        self.seeded = true;
        if ids.len() > 0 {
            let last = ids[ids.len() - 1].clone();
            self.cursor = Some(last);
        }
        deliver
    }
}

/// The cursor keeps up with what was delivered: after a successful fetch of a
/// non-empty batch the cursor is the id of its last event, and the next fetch
/// asks only for events after that id; an empty batch leaves the cursor, and so
/// the next query, as they were.
pub proof fn lemma_cursor_advances(
    params: Seq<(Seq<char>, Seq<char>)>,
    cursor: Option<Seq<char>>,
    ids: Seq<Seq<char>>,
)
    ensures
        ids.len() > 0 ==> cursor_after(cursor, ids) == Some(ids.last()) && fetch_query(
            params,
            true,
            cursor_after(cursor, ids),
        ) == params.push(("after"@, ids.last())),
        ids.len() == 0 ==> cursor_after(cursor, ids) == cursor,
{
}

} // verus!
