//! A scheduling queue of jobs ordered by the time they are due.

use vstd::prelude::*;
use crate::text::{seq_less, str_less, lemma_seq_less_transitive, lemma_seq_less_irreflexive, lemma_seq_less_total};
use crate::timestamp::Timestamp;

verus! {

/// One scheduled run: a mirror and the time it is due.
#[derive(Debug)]
struct ScheduledJob {
    mirror_id: String,
    time: Timestamp,
}

/// Entry `(t1, id1)` runs before entry `(t2, id2)`: entries are ordered by
/// their time, and entries due at the same time by their mirror identifier.
pub open spec fn entry_precedes(t1: Timestamp, id1: Seq<char>, t2: Timestamp, id2: Seq<char>) -> bool {
    t1.earlier_than(t2) || (t1 == t2 && seq_less(id1, id2))
}

impl ScheduledJob {
    /// Whether this entry runs before `other`: by time, then by mirror.
    fn runs_before(&self, other: &ScheduledJob) -> (r: bool)
        ensures
            r == entry_precedes(self.time, self.mirror_id@, other.time, other.mirror_id@),
    {
        self.time.is_before(&other.time) || (self.time == other.time && str_less(
            self.mirror_id.as_str(),
            other.mirror_id.as_str(),
        ))
    }
}

/// `t` is the earliest time at which some job of `m` is due.
pub open spec fn is_earliest_time(m: Map<Seq<char>, Timestamp>, t: Timestamp) -> bool {
    &&& exists|k: Seq<char>| #[trigger] m.contains_key(k) && m[k] == t
    &&& forall|k: Seq<char>| #[trigger] m.contains_key(k) ==> !m[k].earlier_than(t)
}

/// `(id, t)` is the entry of `m` that runs first: no other entry precedes it.
pub open spec fn is_next_entry(m: Map<Seq<char>, Timestamp>, id: Seq<char>, t: Timestamp) -> bool {
    &&& m.contains_key(id)
    &&& m[id] == t
    &&& forall|k: Seq<char>| #[trigger] m.contains_key(k) ==> !entry_precedes(m[k], k, t, id)
}

/// A queue of jobs ordered by the time they are due.
///
/// Each mirror has at most one scheduled time: scheduling a mirror again
/// replaces its earlier time. The queue is viewed as the map from each
/// scheduled mirror to its time. The entries are kept in a vector, with
/// "each mirror once" as its invariant, since mirrors are named by strings
/// and the standard ordered set and hash map are specified for integer-like
/// keys only.
pub struct JobQueue {
    entries: Vec<ScheduledJob>,
    model: Ghost<Map<Seq<char>, Timestamp>>,
}

impl View for JobQueue {
    type V = Map<Seq<char>, Timestamp>;

    closed spec fn view(&self) -> Map<Seq<char>, Timestamp> {
        self.model@
    }
}

impl JobQueue {
    /// The queue's entries agree with its view, and no mirror is scheduled
    /// twice.
    pub closed spec fn wf(&self) -> bool {
        let e = self.entries@;
        let m = self.model@;
        &&& m.dom().finite()
        &&& m.len() == e.len()
        &&& forall|i: int, j: int|
            0 <= i < e.len() && 0 <= j < e.len() && i != j ==> #[trigger] e[i].mirror_id@
                != #[trigger] e[j].mirror_id@
        &&& forall|i: int|
            0 <= i < e.len() ==> #[trigger] m.contains_key(e[i].mirror_id@) && m[e[i].mirror_id@]
                == e[i].time
        &&& forall|k: Seq<char>|
            #[trigger] m.contains_key(k) ==> exists|i: int|
                0 <= i < e.len() && #[trigger] e[i].mirror_id@ == k
    }

    /// A consistent queue holds finitely many entries.
    pub proof fn lemma_view_finite(&self)
        requires
            self.wf(),
        ensures
            self@.dom().finite(),
    {
    }

    /// Creates an empty queue.
    pub fn new() -> (q: Self)
        ensures
            q.wf(),
            q@ == Map::<Seq<char>, Timestamp>::empty(),
    {
        JobQueue { entries: Vec::new(), model: Ghost(Map::empty()) }
    }

    /// The position of `mirror_id` in the entries, if it is scheduled.
    fn find(&self, mirror_id: &str) -> (r: Option<usize>)
        requires
            self.wf(),
        ensures
            match r {
                Some(i) => i < self.entries.len() && self.entries@[i as int].mirror_id@
                    == mirror_id@,
                None => !self@.contains_key(mirror_id@),
            },
    {
        let mut i: usize = 0;
        while i < self.entries.len()
            invariant
                self.wf(),
                i <= self.entries.len(),
                forall|j: int| 0 <= j < i ==> self.entries@[j].mirror_id@ != mirror_id@,
            decreases self.entries.len() - i,
        {
            if crate::text::str_equal(self.entries[i].mirror_id.as_str(), mirror_id) {
                return Some(i);
            }
            i = i + 1;
        }
        None
    }

    /// Schedules `mirror_id` to run at `time`, replacing any time it was
    /// scheduled at before.
    pub fn schedule(&mut self, mirror_id: String, time: Timestamp)
        requires
            old(self).wf(),
        ensures
            final(self).wf(),
            final(self)@ == old(self)@.insert(mirror_id@, time),
    {
        let ghost key = mirror_id@;
        match self.find(mirror_id.as_str()) {
            Some(i) => {
                let ghost old_e = self.entries@;
                self.entries.set(i, ScheduledJob { mirror_id, time });
                proof {
                    self.model@ = self.model@.insert(key, time);
                    assert(self.model@.dom() =~= old(self).model@.dom());
                    assert forall|k: Seq<char>| #[trigger] self.model@.contains_key(k) implies exists|j: int|
                        0 <= j < self.entries@.len() && #[trigger] self.entries@[j].mirror_id@ == k by {
                        if k != key {
                            let j = choose|j: int| 0 <= j < old_e.len() && #[trigger] old_e[j].mirror_id@ == k;
                            assert(self.entries@[j].mirror_id@ == k);
                        } else {
                            assert(self.entries@[i as int].mirror_id@ == k);
                        }
                    }
                }
            },
            None => {
                let ghost old_e = self.entries@;
                self.entries.push(ScheduledJob { mirror_id, time });
                proof {
                    self.model@ = self.model@.insert(key, time);
                    assert forall|k: Seq<char>| #[trigger] self.model@.contains_key(k) implies exists|j: int|
                        0 <= j < self.entries@.len() && #[trigger] self.entries@[j].mirror_id@ == k by {
                        if k != key {
                            let j = choose|j: int| 0 <= j < old_e.len() && #[trigger] old_e[j].mirror_id@ == k;
                            assert(self.entries@[j].mirror_id@ == k);
                        } else {
                            assert(self.entries@[old_e.len() as int].mirror_id@ == k);
                        }
                    }
                }
            },
        }
    }

    /// Removes the entry at position `i`.
    fn remove_at(&mut self, i: usize) -> (removed: ScheduledJob)
        requires
            old(self).wf(),
            i < old(self).entries.len(),
        ensures
            final(self).wf(),
            removed == old(self).entries@[i as int],
            final(self)@ == old(self)@.remove(removed.mirror_id@),
    {
        let ghost old_e = self.entries@;
        let ghost key = old_e[i as int].mirror_id@;
        let removed = self.entries.remove(i);
        proof {
            self.model@ = self.model@.remove(key);
            let e = self.entries@;
            assert forall|j: int| 0 <= j < e.len() implies #[trigger] self.model@.contains_key(e[j].mirror_id@)
                && self.model@[e[j].mirror_id@] == e[j].time by {
                if j < i {
                    assert(e[j] == old_e[j]);
                } else {
                    assert(e[j] == old_e[j + 1]);
                }
            }
            assert forall|k: Seq<char>| #[trigger] self.model@.contains_key(k) implies exists|j: int|
                0 <= j < e.len() && #[trigger] e[j].mirror_id@ == k by {
                let j = choose|j: int| 0 <= j < old_e.len() && #[trigger] old_e[j].mirror_id@ == k;
                if j < i {
                    assert(e[j].mirror_id@ == k);
                } else {
                    assert(j != i);
                    assert(e[j - 1].mirror_id@ == k);
                }
            }
            assert forall|a: int, b: int|
                0 <= a < e.len() && 0 <= b < e.len() && a != b implies #[trigger] e[a].mirror_id@
                != #[trigger] e[b].mirror_id@ by {
                let a0 = if a < i { a } else { a + 1 };
                let b0 = if b < i { b } else { b + 1 };
                assert(e[a] == old_e[a0]);
                assert(e[b] == old_e[b0]);
            }
        }
        removed
    }

    /// Removes `mirror_id` from the queue; does nothing if it is not scheduled.
    pub fn remove(&mut self, mirror_id: &str)
        requires
            old(self).wf(),
        ensures
            final(self).wf(),
            final(self)@ == old(self)@.remove(mirror_id@),
    {
        match self.find(mirror_id) {
            Some(i) => {
                self.remove_at(i);
            },
            None => {
                assert(self@.remove(mirror_id@) =~= self@);
            },
        }
    }

    /// The position of the entry that runs first.
    fn first_position(&self) -> (r: usize)
        requires
            self.wf(),
            self.entries.len() > 0,
        ensures
            r < self.entries.len(),
            forall|j: int|
                0 <= j < self.entries.len() ==> !entry_precedes(
                    #[trigger] self.entries@[j].time,
                    self.entries@[j].mirror_id@,
                    self.entries@[r as int].time,
                    self.entries@[r as int].mirror_id@,
                ),
    {
        let mut best: usize = 0;
        let mut i: usize = 1;
        proof {
            lemma_seq_less_irreflexive(self.entries@[0].mirror_id@);
        }
        while i < self.entries.len()
            invariant
                self.wf(),
                best < i <= self.entries.len(),
                forall|j: int|
                    0 <= j < i ==> !entry_precedes(
                        #[trigger] self.entries@[j].time,
                        self.entries@[j].mirror_id@,
                        self.entries@[best as int].time,
                        self.entries@[best as int].mirror_id@,
                    ),
            decreases self.entries.len() - i,
        {
            if self.entries[i].runs_before(&self.entries[best]) {
                proof {
                    let e = self.entries@;
                    assert forall|j: int| 0 <= j <= i implies !entry_precedes(
                        #[trigger] e[j].time,
                        e[j].mirror_id@,
                        e[i as int].time,
                        e[i as int].mirror_id@,
                    ) by {
                        if j == i {
                            lemma_seq_less_irreflexive(e[j].mirror_id@);
                        } else if entry_precedes(e[j].time, e[j].mirror_id@, e[i as int].time, e[i as int].mirror_id@) {
                            if e[j].time == e[i as int].time && e[i as int].time == e[best as int].time {
                                lemma_seq_less_transitive(
                                    e[j].mirror_id@,
                                    e[i as int].mirror_id@,
                                    e[best as int].mirror_id@,
                                );
                            }
                        }
                    }
                }
                best = i;
            }
            i = i + 1;
        }
        best
    }

    /// The time of the entry that runs first, or `None` when the queue is empty.
    pub fn peek_time(&self) -> (r: Option<Timestamp>)
        requires
            self.wf(),
        ensures
            r is None <==> self@.is_empty(),
            r matches Some(t) ==> is_earliest_time(self@, t),
    {
        if self.entries.len() == 0 {
            proof {
                assert(self@.dom() =~= Set::<Seq<char>>::empty());
            }
            return None;
        }
        let p = self.first_position();
        let t = self.entries[p].time;
        proof {
            let e = self.entries@;
            assert(self@.contains_key(e[p as int].mirror_id@));
            assert forall|k: Seq<char>| #[trigger] self@.contains_key(k) implies !self@[k].earlier_than(t) by {
                let j = choose|j: int| 0 <= j < e.len() && #[trigger] e[j].mirror_id@ == k;
                assert(!entry_precedes(e[j].time, e[j].mirror_id@, e[p as int].time, e[p as int].mirror_id@));
            }
        }
        Some(t)
    }

    /// Removes and returns the entry that runs first, or `None` when the
    /// queue is empty.
    pub fn dequeue(&mut self) -> (r: Option<(String, Timestamp)>)
        requires
            old(self).wf(),
        ensures
            final(self).wf(),
            r is None <==> old(self)@.is_empty(),
            r is None ==> final(self)@ == old(self)@,
            r matches Some((id, t)) ==> is_next_entry(old(self)@, id@, t) && final(self)@ == old(
                self,
            )@.remove(id@),
    {
        if self.entries.len() == 0 {
            proof {
                assert(self@.dom() =~= Set::<Seq<char>>::empty());
            }
            return None;
        }
        let p = self.first_position();
        proof {
            let e = self.entries@;
            assert forall|k: Seq<char>| #[trigger] self@.contains_key(k) implies !entry_precedes(
                self@[k],
                k,
                e[p as int].time,
                e[p as int].mirror_id@,
            ) by {
                let j = choose|j: int| 0 <= j < e.len() && #[trigger] e[j].mirror_id@ == k;
                assert(!entry_precedes(e[j].time, e[j].mirror_id@, e[p as int].time, e[p as int].mirror_id@));
            }
        }
        let scheduled = self.remove_at(p);
        Some((scheduled.mirror_id, scheduled.time))
    }

    /// The number of scheduled jobs.
    pub fn len(&self) -> (n: usize)
        requires
            self.wf(),
        ensures
            n == self@.len(),
    {
        self.entries.len()
    }

    /// Whether no job is scheduled.
    pub fn is_empty(&self) -> (b: bool)
        requires
            self.wf(),
        ensures
            b == self@.is_empty(),
    {
        if self.entries.len() == 0 {
            proof {
                assert(self@.dom() =~= Set::<Seq<char>>::empty());
            }
            true
        } else {
            proof {
                assert(self@.contains_key(self.entries@[0].mirror_id@));
            }
            false
        }
    }

    /// Whether `mirror_id` is scheduled.
    pub fn contains(&self, mirror_id: &str) -> (b: bool)
        requires
            self.wf(),
        ensures
            b == self@.contains_key(mirror_id@),
    {
        self.find(mirror_id).is_some()
    }
}

impl Default for JobQueue {
    fn default() -> (q: Self)
        ensures
            q.wf(),
            q@ == Map::<Seq<char>, Timestamp>::empty(),
    {
        JobQueue::new()
    }
}

/// Removing a mirror that is not scheduled leaves the queue as it is.
pub proof fn lemma_remove_absent(m: Map<Seq<char>, Timestamp>, id: Seq<char>)
    requires
        !m.contains_key(id),
    ensures
        m.remove(id) == m,
{
    assert(m.remove(id) =~= m);
}

/// Scheduling a mirror again replaces its time: the queue holds one entry
/// per mirror, at the time of the last scheduling.
pub proof fn lemma_schedule_replaces(m: Map<Seq<char>, Timestamp>, id: Seq<char>, t1: Timestamp, t2: Timestamp)
    ensures
        m.insert(id, t1).insert(id, t2) == m.insert(id, t2),
        m.insert(id, t2).contains_key(id) && m.insert(id, t2)[id] == t2,
{
    assert(m.insert(id, t1).insert(id, t2) =~= m.insert(id, t2));
}

/// At most one entry of a queue runs first: the entry `dequeue` takes is
/// determined by the queue's contents.
pub proof fn lemma_next_entry_unique(
    m: Map<Seq<char>, Timestamp>,
    id1: Seq<char>,
    t1: Timestamp,
    id2: Seq<char>,
    t2: Timestamp,
)
    requires
        is_next_entry(m, id1, t1),
        is_next_entry(m, id2, t2),
    ensures
        id1 == id2,
        t1 == t2,
{
    assert(m.contains_key(id1));
    assert(m.contains_key(id2));
    if id1 != id2 {
        lemma_seq_less_total(id1, id2);
    }
}

/// The entry that runs first is due at the queue's earliest time: the time
/// `dequeue` returns is the time `peek_time` returned before it.
pub proof fn lemma_next_entry_is_earliest(m: Map<Seq<char>, Timestamp>, id: Seq<char>, t: Timestamp)
    requires
        is_next_entry(m, id, t),
    ensures
        is_earliest_time(m, t),
{
    assert(m.contains_key(id));
    assert forall|k: Seq<char>| #[trigger] m.contains_key(k) implies !m[k].earlier_than(t) by {
        assert(!entry_precedes(m[k], k, t, id));
    }
}

/// A queue has one earliest time.
pub proof fn lemma_earliest_time_unique(m: Map<Seq<char>, Timestamp>, t1: Timestamp, t2: Timestamp)
    requires
        is_earliest_time(m, t1),
        is_earliest_time(m, t2),
    ensures
        t1 == t2,
{
    let k1 = choose|k: Seq<char>| #[trigger] m.contains_key(k) && m[k] == t1;
    let k2 = choose|k: Seq<char>| #[trigger] m.contains_key(k) && m[k] == t2;
    assert(m.contains_key(k1));
    assert(m.contains_key(k2));
}

} // verus!
