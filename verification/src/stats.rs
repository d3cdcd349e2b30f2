//! The completion counters: how many cycles of each reminder type have
//! run to their end.

use crate::table::NameTable;
use vstd::prelude::*;

verus! {

/// The count that the map `m` gives the name `k`: its value, or zero where
/// `m` has no entry for `k`.
pub open spec fn count_in(m: Map<Seq<char>, nat>, k: Seq<char>) -> nat {
    if m.contains_key(k) {
        m[k]
    } else {
        0
    }
}

/// The largest value a completion counter can hold.
pub open spec fn counter_limit() -> nat {
    u64::MAX as nat
}

/// The count after one more completion: one higher, or the same where the
/// counter is at the top of its range, so that a counter never falls.
pub open spec fn one_more(count: nat) -> nat {
    if count < counter_limit() {
        count + 1
    } else {
        count
    }
}

/// The map `m` after one more completion of `k`: an entry exists for `k`
/// with one more than its count, and every other entry is as it was.
pub open spec fn counted(m: Map<Seq<char>, nat>, k: Seq<char>) -> Map<Seq<char>, nat> {
    m.insert(k, one_more(count_in(m, k)))
}

/// The completion counters, read as a finite map from a reminder type's
/// name to the number of its completed cycles. A type has no entry before
/// its first completion.
pub struct ReminderStats {
    counts: NameTable<u64>,
}

impl View for ReminderStats {
    type V = Map<Seq<char>, nat>;

    closed spec fn view(&self) -> Map<Seq<char>, nat> {
        Map::new(|k: Seq<char>| self.counts@.contains_key(k), |k: Seq<char>| self.counts@[k] as nat)
    }
}

impl ReminderStats {
    /// The counters before any completion.
    pub fn new() -> (stats: Self)
        ensures
            stats@ == Map::<Seq<char>, nat>::empty(),
    {
        let stats = ReminderStats { counts: NameTable::new() };
        assert(stats@ =~= Map::<Seq<char>, nat>::empty());
        stats
    }

    /// The number of completed cycles of the reminder type `name`.
    pub fn count(&self, name: &String) -> (n: u64)
        ensures
            n == count_in(self@, name@),
    {
        match self.counts.get(name) {
            Some(n) => n,
            None => 0,
        }
    }

    /// Records one more completed cycle of `name`: its counter goes up by
    /// one, from zero where it had no entry, and stays where it is at the
    /// top of its range. No other counter changes.
    pub fn increment(&mut self, name: String)
        ensures
            final(self)@ == counted(old(self)@, name@),
    {
        let n = self.count(&name);
        let next = if n < u64::MAX {
            n + 1
        } else {
            n
        };
        self.counts.set(name, next);
        assert(self@ =~= counted(old(self)@, name@));
    }

    /// An independent copy of the counters.
    pub fn snapshot(&self) -> (copy: Self)
        ensures
            copy@ == self@,
    {
        let copy = ReminderStats { counts: self.counts.snapshot() };
        assert(copy@ =~= self@);
        copy
    }

    /// The reminder types that have completed at least once, with their
    /// counts, each type once.
    pub fn to_vec(&self) -> (pairs: Vec<(String, u64)>)
        ensures
            lists_counts(pairs@, self@),
    {
        let pairs = self.counts.to_vec();
        assert(lists_counts(pairs@, self@)) by {
            assert forall|k: Seq<char>| self@.contains_key(k) implies exists|i: int|
                0 <= i < pairs@.len() && #[trigger] pairs@[i].0@ == k by {
                assert(self.counts@.contains_key(k));
            }
        }
        pairs
    }
}

/// The pairs `pairs` list the counters `m`: each pair is a type of `m`
/// with its count, each type of `m` has a pair, and no type stands in two
/// pairs.
pub open spec fn lists_counts(pairs: Seq<(String, u64)>, m: Map<Seq<char>, nat>) -> bool {
    &&& forall|i: int|
        0 <= i < pairs.len() ==> m.contains_key(#[trigger] pairs[i].0@) && m[pairs[i].0@]
            == pairs[i].1
    &&& forall|k: Seq<char>|
        m.contains_key(k) ==> exists|i: int| 0 <= i < pairs.len() && #[trigger] pairs[i].0@ == k
    &&& forall|i: int, j: int|
        0 <= i < pairs.len() && 0 <= j < pairs.len() && #[trigger] pairs[i].0@
            == #[trigger] pairs[j].0@ ==> i == j
}

} // verus!
