//! A bounded cache that files one value under each process id.
//!
//! The cache keeps its entries in order of use, least recently written
//! first. When a new process would exceed the capacity, the entry written
//! longest ago makes room. Entries of processes that are gone can be evicted
//! at any time.

use vstd::prelude::*;

verus! {

/// A bounded cache from process ids to values.
#[derive(Debug)]
pub struct PidCache<T> {
    items: Vec<(u32, T)>,
    capacity: usize,
}

/// The first index below `n` at which `entries` holds `pid`, or `-1`.
pub open spec fn position<T>(entries: Seq<(u32, T)>, pid: u32, n: int) -> int
    decreases n,
{
    if n <= 0 || n > entries.len() {
        -1
    } else if position(entries, pid, n - 1) >= 0 {
        position(entries, pid, n - 1)
    } else if entries[n - 1].0 == pid {
        n - 1
    } else {
        -1
    }
}

/// The index of the entry of `pid`, or `-1`.
pub open spec fn index_of<T>(entries: Seq<(u32, T)>, pid: u32) -> int {
    position(entries, pid, entries.len() as int)
}

/// The value filed under `pid`, if any.
pub open spec fn lookup<T>(entries: Seq<(u32, T)>, pid: u32) -> Option<T> {
    if index_of(entries, pid) >= 0 {
        Some(entries[index_of(entries, pid)].1)
    } else {
        None
    }
}

/// No process has two entries.
pub open spec fn distinct<T>(entries: Seq<(u32, T)>) -> bool {
    forall|i: int, j: int| 0 <= i < j < entries.len() ==> entries[i].0 != entries[j].0
}

/// The entries without the one of `pid`.
pub open spec fn without<T>(entries: Seq<(u32, T)>, pid: u32) -> Seq<(u32, T)> {
    if index_of(entries, pid) >= 0 {
        entries.remove(index_of(entries, pid))
    } else {
        entries
    }
}

/// The entries after `value` has been written for `pid`: the entry of `pid`
/// moves to the end with its new value; where `pid` is new and the cache is
/// full, the first entry leaves.
pub open spec fn written<T>(entries: Seq<(u32, T)>, capacity: int, pid: u32, value: T) -> Seq<
    (u32, T),
> {
    if index_of(entries, pid) >= 0 {
        entries.remove(index_of(entries, pid)).push((pid, value))
    } else if entries.len() >= capacity && entries.len() > 0 {
        entries.drop_first().push((pid, value))
    } else {
        entries.push((pid, value))
    }
}

/// What `position` returns is the first entry of that process.
pub proof fn lemma_position<T>(entries: Seq<(u32, T)>, pid: u32, n: int)
    requires
        0 <= n <= entries.len(),
    ensures
        -1 <= position(entries, pid, n) < n,
        position(entries, pid, n) >= 0 ==> entries[position(entries, pid, n)].0 == pid,
        forall|j: int|
            0 <= j < n && (position(entries, pid, n) < 0 || j < position(entries, pid, n))
                ==> entries[j].0 != pid,
    decreases n,
{
    if n > 0 {
        lemma_position(entries, pid, n - 1);
    }
}

/// An entry of `pid` at `i`, with none before it, is what every longer
/// search finds.
pub proof fn lemma_position_found<T>(entries: Seq<(u32, T)>, pid: u32, i: int, n: int)
    requires
        0 <= i < n <= entries.len(),
        position(entries, pid, i) < 0,
        entries[i].0 == pid,
    ensures
        position(entries, pid, n) == i,
    decreases n,
{
    if n > i + 1 {
        lemma_position_found(entries, pid, i, n - 1);
    }
}

/// Where the process ids of `entries` are distinct, the index of a process
/// is the index of its one entry, and a process without entry has none.
pub proof fn lemma_index_of<T>(entries: Seq<(u32, T)>, pid: u32)
    requires
        distinct(entries),
    ensures
        forall|i: int| 0 <= i < entries.len() && entries[i].0 == pid ==> index_of(entries, pid) == i,
        index_of(entries, pid) < 0 <==> forall|i: int|
            0 <= i < entries.len() ==> entries[i].0 != pid,
{
    lemma_position(entries, pid, entries.len() as int);
}

/// Writing keeps the ids distinct and the cache within its capacity; the
/// written process then has the written value, and every other process but
/// the one that had to leave has what it had.
pub proof fn lemma_written<T>(entries: Seq<(u32, T)>, capacity: int, pid: u32, value: T)
    requires
        distinct(entries),
        capacity >= 1,
        entries.len() <= capacity,
    ensures
        distinct(written(entries, capacity, pid, value)),
        written(entries, capacity, pid, value).len() <= capacity,
        lookup(written(entries, capacity, pid, value), pid) == Some(value),
        forall|other: u32|
            other != pid && lookup(written(entries, capacity, pid, value), other) is Some
                ==> lookup(written(entries, capacity, pid, value), other) == lookup(
                entries,
                other,
            ),
        forall|other: u32|
            other != pid && lookup(entries, other) is Some && !(index_of(entries, pid) < 0
                && entries.len() >= capacity && entries[0].0 == other) ==> lookup(
                written(entries, capacity, pid, value),
                other,
            ) == lookup(entries, other),
{
    let after = written(entries, capacity, pid, value);
    let at = index_of(entries, pid);
    lemma_position(entries, pid, entries.len() as int);
    lemma_index_of(after, pid);
    assert forall|other: u32| other != pid implies (lookup(after, other) is Some ==> lookup(
        after,
        other,
    ) == lookup(entries, other)) && (lookup(entries, other) is Some && !(at < 0 && entries.len()
        >= capacity && entries[0].0 == other) ==> lookup(after, other) == lookup(
        entries,
        other,
    )) by {
        lemma_index_of(after, other);
        lemma_index_of(entries, other);
        lemma_position(after, other, after.len() as int);
        lemma_position(entries, other, entries.len() as int);
        let j = index_of(entries, other);
        if j >= 0 && !(at < 0 && entries.len() >= capacity && entries[0].0 == other) {
            if at >= 0 {
                let dst = if j < at {
                    j
                } else {
                    j - 1
                };
                assert(after[dst] == entries[j]);
            } else if entries.len() >= capacity && entries.len() > 0 {
                assert(after[j - 1] == entries[j]);
            } else {
                assert(after[j] == entries[j]);
            }
        }
    }
}

/// Evicting keeps the ids distinct; the evicted process then has no entry,
/// and every other process has what it had.
pub proof fn lemma_without<T>(entries: Seq<(u32, T)>, pid: u32)
    requires
        distinct(entries),
    ensures
        distinct(without(entries, pid)),
        without(entries, pid).len() <= entries.len(),
        lookup(without(entries, pid), pid) is None,
        forall|other: u32|
            other != pid ==> lookup(without(entries, pid), other) == lookup(entries, other),
{
    let after = without(entries, pid);
    let at = index_of(entries, pid);
    lemma_position(entries, pid, entries.len() as int);
    lemma_index_of(entries, pid);
    lemma_index_of(after, pid);
    assert forall|other: u32| other != pid implies lookup(after, other) == lookup(
        entries,
        other,
    ) by {
        lemma_index_of(after, other);
        lemma_index_of(entries, other);
        lemma_position(after, other, after.len() as int);
        lemma_position(entries, other, entries.len() as int);
        let j = index_of(entries, other);
        if at >= 0 {
            if j >= 0 {
                let dst = if j < at {
                    j
                } else {
                    j - 1
                };
                assert(after[dst] == entries[j]);
            }
        }
    }
}

impl<T> PidCache<T> {
    /// The entries of the cache, least recently written first.
    pub closed spec fn entries(&self) -> Seq<(u32, T)> {
        self.items@
    }

    /// The number of processes that the cache has room for.
    pub closed spec fn limit(&self) -> int {
        self.capacity as int
    }

    /// No process has two entries, and the cache is within its capacity.
    pub open spec fn well_formed(&self) -> bool {
        &&& distinct(self.entries())
        &&& self.limit() >= 1
        &&& self.entries().len() <= self.limit()
    }

    /// An empty cache with room for `capacity` processes, but for one at
    /// least.
    pub fn new(capacity: usize) -> (cache: Self)
        ensures
            cache.well_formed(),
            cache.entries() == Seq::<(u32, T)>::empty(),
            cache.limit() == if capacity == 0 {
                1
            } else {
                capacity as int
            },
    {
        PidCache {
            items: Vec::new(),
            capacity: if capacity == 0 {
                1
            } else {
                capacity
            },
        }
    }

    /// The number of processes that have an entry.
    pub fn len(&self) -> (n: usize)
        ensures
            n == self.entries().len(),
    {
        self.items.len()
    }

    /// The index of the entry of `pid`.
    fn find(&self, pid: u32) -> (found: Option<usize>)
        ensures
            found is Some <==> index_of(self.entries(), pid) >= 0,
            found matches Some(i) ==> i == index_of(self.entries(), pid) && i
                < self.entries().len(),
    {
        let mut i: usize = 0;
        while i < self.items.len()
            invariant
                i <= self.items@.len(),
                position(self.items@, pid, i as int) < 0,
            decreases self.items@.len() - i,
        {
            if self.items[i].0 == pid {
                proof {
                    lemma_position_found(self.items@, pid, i as int, self.items@.len() as int);
                }
                return Some(i);
            }
            i = i + 1;
        }
        None
    }

    /// Whether `pid` has an entry.
    pub fn contains(&self, pid: u32) -> (r: bool)
        ensures
            r == lookup(self.entries(), pid) is Some,
    {
        self.find(pid).is_some()
    }

    /// The value filed under `pid`.
    pub fn get(&self, pid: u32) -> (value: Option<&T>)
        ensures
            value is Some <==> lookup(self.entries(), pid) is Some,
            value matches Some(v) ==> lookup(self.entries(), pid) == Some(*v),
    {
        match self.find(pid) {
            Some(i) => Some(&self.items[i].1),
            None => None,
        }
    }

    /// Files `value` under `pid`. An earlier value of `pid` is replaced;
    /// where `pid` is new and the cache is full, the entry written longest
    /// ago leaves.
    pub fn insert(&mut self, pid: u32, value: T)
        requires
            old(self).well_formed(),
        ensures
            final(self).well_formed(),
            final(self).limit() == old(self).limit(),
            final(self).entries() == written(old(self).entries(), old(self).limit(), pid, value),
            lookup(final(self).entries(), pid) == Some(value),
    {
        proof {
            lemma_written(self.entries(), self.limit(), pid, value);
        }
        match self.find(pid) {
            Some(i) => {
                self.items.remove(i);
            },
            None => {
                if self.items.len() >= self.capacity && self.items.len() > 0 {
                    self.items.remove(0);
                }
            },
        }
        self.items.push((pid, value));
    }

    /// Evicts the entry of `pid` and hands its value back.
    pub fn remove(&mut self, pid: u32) -> (value: Option<T>)
        requires
            old(self).well_formed(),
        ensures
            final(self).well_formed(),
            final(self).limit() == old(self).limit(),
            final(self).entries() == without(old(self).entries(), pid),
            value == lookup(old(self).entries(), pid),
            lookup(final(self).entries(), pid) is None,
    {
        proof {
            lemma_without(self.entries(), pid);
        }
        match self.find(pid) {
            Some(i) => {
                let entry = self.items.remove(i);
                Some(entry.1)
            },
            None => None,
        }
    }
}

} // verus!
