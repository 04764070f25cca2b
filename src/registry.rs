//! A table from names (bot ids, stream keys) to the channels that serve them.
//! Each name is present at most once, and an entry is never replaced.

use vstd::prelude::*;

verus! {

/// Whether `s` holds an entry named `k`.
pub open spec fn has_key<C>(s: Seq<(Seq<char>, C)>, k: Seq<char>) -> bool {
    exists|i: int| 0 <= i < s.len() && (#[trigger] s[i]).0 == k
}

/// No two entries of `s` share a name.
pub open spec fn keys_unique<C>(s: Seq<(Seq<char>, C)>) -> bool {
    forall|i: int, j: int|
        0 <= i < s.len() && 0 <= j < s.len() && (#[trigger] s[i]).0 == (#[trigger] s[j]).0 ==> i == j
}

/// The entries after a subscription to `k` that brings `c` along: `c` is kept
/// only if `k` was new.
pub open spec fn after_subscribe<C>(s: Seq<(Seq<char>, C)>, k: Seq<char>, c: C) -> Seq<
    (Seq<char>, C),
> {
    if has_key(s, k) {
        s
    } else {
        s.push((k, c))
    }
}

/// A subscription to `k` starts a new poller exactly when `k` is new.
pub open spec fn subscribe_starts<C>(s: Seq<(Seq<char>, C)>, k: Seq<char>) -> bool {
    !has_key(s, k)
}

/// Outcome of a subscription: the index of the entry that serves the key, and
/// whether it was created by this call.
#[derive(Debug, Clone, Copy, PartialEq, Eq, Structural)]
pub enum Subscribed {
    Attached(usize),
    Started(usize),
}

/// Why a registration was refused.
#[derive(Debug, Clone, Copy, PartialEq, Eq, Structural)]
pub enum RegisterError {
    AlreadyRegistered,
}

/// Channels by name.
#[derive(Debug)]
pub struct Registry<C> {
    entries: Vec<(String, C)>,
}

impl<C> View for Registry<C> {
    type V = Seq<(Seq<char>, C)>;

    closed spec fn view(&self) -> Seq<(Seq<char>, C)> {
        self.entries@.map_values(|e: (String, C)| (e.0@, e.1))
    }
}

impl<C> Registry<C> {
    pub open spec fn wf(&self) -> bool {
        keys_unique(self@)
    }

    /// An empty registry.
    pub fn new() -> (r: Self)
        ensures
            r.wf(),
            r@ == Seq::<(Seq<char>, C)>::empty(),
    {
        let r = Registry { entries: Vec::new() };
        assert(r@ =~= Seq::<(Seq<char>, C)>::empty());
        r
    }

    /// Number of entries.
    pub fn len(&self) -> (r: usize)
        ensures
            r == self@.len(),
    {
        self.entries.len()
    }

    /// Index of the entry named `key`, if there is one.
    pub fn find(&self, key: &String) -> (r: Option<usize>)
        requires
            self.wf(),
        ensures
            match r {
                Some(i) => i < self@.len() && self@[i as int].0 == key@,
                None => !has_key(self@, key@),
            },
    {
        let mut i: usize = 0;
        while i < self.entries.len()
            invariant
                i <= self@.len(),
                self@.len() == self.entries@.len(),
                forall|j: int| 0 <= j < i ==> (#[trigger] self@[j]).0 != key@,
            decreases self.entries@.len() - i,
        {
            if self.entries[i].0 == *key {
                return Some(i);
            }
            i = i + 1;
        }
        None
    }

    /// Whether an entry is named `key`.
    pub fn contains_key(&self, key: &String) -> (r: bool)
        requires
            self.wf(),
        ensures
            r == has_key(self@, key@),
    {
        self.find(key).is_some()
    }

    /// The channel of entry `i`.
    pub fn get_at(&self, i: usize) -> (r: &C)
        requires
            i < self@.len(),
        ensures
            *r == self@[i as int].1,
    {
        &self.entries[i].1
    }

    /// The channel named `key`, if there is one.
    pub fn get(&self, key: &String) -> (r: Option<&C>)
        requires
            self.wf(),
        ensures
            r is Some <==> has_key(self@, key@),
            forall|i: int|
                0 <= i < self@.len() && (#[trigger] self@[i]).0 == key@ ==> r == Some(&self@[i].1),
    {
        match self.find(key) {
            Some(i) => Some(self.get_at(i)),
            None => None,
        }
    }

    /// Adds `value` under `key`, unless `key` is taken: then the registry is
    /// left as it was, with the existing entry in place.
    pub fn register(&mut self, key: String, value: C) -> (r: Result<(), RegisterError>)
        requires
            old(self).wf(),
        ensures
            final(self).wf(),
            has_key(old(self)@, key@) ==> r == Err::<(), RegisterError>(
                RegisterError::AlreadyRegistered,
            ) && final(self)@ == old(self)@,
            !has_key(old(self)@, key@) ==> r is Ok && final(self)@ == old(self)@.push((key@, value)),
    {
        if self.contains_key(&key) {
            Err(RegisterError::AlreadyRegistered)
        } else {
            let ghost k = key@;
            self.entries.push((key, value));
            assert(self@ =~= old(self)@.push((k, value)));
            Ok(())
        }
    }

    /// Joins the entry named `key`, creating it with `fresh` if there is none.
    /// `Started` tells the caller that the entry is new, and that a poller has
    /// to be started for it; `Attached` that one already runs.
    pub fn subscribe(&mut self, key: String, fresh: C) -> (r: Subscribed)
        requires
            old(self).wf(),
        ensures
            final(self).wf(),
            final(self)@ == after_subscribe(old(self)@, key@, fresh),
            (r is Started) == subscribe_starts(old(self)@, key@),
            match r {
                Subscribed::Attached(i) => i < final(self)@.len() && final(self)@[i as int].0
                    == key@,
                Subscribed::Started(i) => i == old(self)@.len() && final(self)@[i as int].0
                    == key@,
            },
    {
        match self.find(&key) {
            Some(i) => Subscribed::Attached(i),
            None => {
                let n = self.entries.len();
                let ghost k = key@;
                self.entries.push((key, fresh));
                assert(self@ =~= old(self)@.push((k, fresh)));
                Subscribed::Started(n)
            },
        }
    }
}

/// Two subscriptions to the same key never start two pollers: the first starts
/// one exactly when the key is new, and the second finds the key present,
/// starts nothing and leaves the registry as the first left it.
pub proof fn lemma_one_poller_per_key<C>(s: Seq<(Seq<char>, C)>, k: Seq<char>, c1: C, c2: C)
    requires
        keys_unique(s),
    ensures
        subscribe_starts(s, k) == !has_key(s, k),
        !subscribe_starts(after_subscribe(s, k, c1), k),
        after_subscribe(after_subscribe(s, k, c1), k, c2) == after_subscribe(s, k, c1),
        keys_unique(after_subscribe(s, k, c1)),
{
    let s1 = after_subscribe(s, k, c1);
    if !has_key(s, k) {
        assert(s1[s.len() as int].0 == k);
        assert forall|i: int, j: int|
            0 <= i < s1.len() && 0 <= j < s1.len() && (#[trigger] s1[i]).0 == (#[trigger] s1[j]).0
            implies i == j by {
            if i < s.len() && j == s.len() {
                assert(s[i].0 == k);
            }
            if j < s.len() && i == s.len() {
                assert(s[j].0 == k);
            }
        }
    }
}

} // verus!
