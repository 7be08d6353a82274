//! The dispatcher's pool bookkeeping: the single owner of the set of
//! in-flight workers. It allocates ids, remembers each worker's cancellation
//! flag, and removes an entry only when the worker's completion signal has
//! been processed. The threads, channels and the shared atomic flag live
//! outside the library and mirror these decisions.

use vstd::prelude::*;
use crate::seqs::lemma_filter_push;
use crate::work::{Work, Worker};

verus! {

/// Bookkeeping for one in-flight worker: its id and whether its
/// cancellation flag has been set.
#[derive(Debug, Clone, Copy, PartialEq, Eq, Structural)]
pub struct PoolEntry {
    pub id: usize,
    pub cancelled: bool,
}

/// Internal signal from a finished worker thread to the dispatcher, so it
/// can drop its bookkeeping for that worker.
#[derive(Debug, Clone, Copy, PartialEq, Eq, Structural)]
pub enum WorkEvent {
    Done(usize),
}

/// The pool entries that survive the removal of `id`.
pub open spec fn without_id(s: Seq<PoolEntry>, id: usize) -> Seq<PoolEntry> {
    s.filter(|e: PoolEntry| e.id != id)
}

/// The worker-pool manager. Ids grow monotonically, so an id is never
/// reused while its worker is still tracked.
pub struct WorkHandler {
    next_id: usize,
    entries: Vec<PoolEntry>,
}

impl WorkHandler {
    /// The id the next submission will receive.
    pub closed spec fn next_id(self) -> usize {
        self.next_id
    }

    /// The bookkeeping entries of the in-flight workers, in submission
    /// order.
    pub closed spec fn entries(self) -> Seq<PoolEntry> {
        self.entries@
    }

    /// Every tracked id was allocated before `next_id`, and no id is
    /// tracked twice.
    pub open spec fn wf(self) -> bool {
        &&& forall|i: int| 0 <= i < self.entries().len() ==> (#[trigger] self.entries()[i]).id
            < self.next_id()
        &&& forall|i: int, j: int|
            0 <= i < j < self.entries().len() ==> (#[trigger] self.entries()[i]).id
                != (#[trigger] self.entries()[j]).id
    }

    /// Whether `id` belongs to a worker that is still tracked.
    pub open spec fn tracks(self, id: usize) -> bool {
        exists|i: int| 0 <= i < self.entries().len() && (#[trigger] self.entries()[i]).id == id
    }

    pub fn new() -> (h: WorkHandler)
        ensures
            h.wf(),
            h.entries().len() == 0,
            h.next_id() == 0,
    {
        WorkHandler { next_id: 0, entries: Vec::new() }
    }

    /// Whether every id has been handed out, so no further work can be
    /// submitted.
    pub fn ids_exhausted(&self) -> (r: bool)
        ensures
            r == (self.next_id() == usize::MAX),
    {
        self.next_id == usize::MAX
    }

    /// Accept a work request: allocate a fresh id, tag the work with it,
    /// wrap it in a worker and track the pair. The returned id was not
    /// tracked before, so an id is never reused while still pending.
    pub fn submit(&mut self, work: Work) -> (r: (usize, Worker))
        requires
            old(self).wf(),
            old(self).next_id() < usize::MAX,
        ensures
            final(self).wf(),
            r.0 == old(self).next_id(),
            !old(self).tracks(r.0),
            final(self).tracks(r.0),
            final(self).entries() == old(self).entries().push(
                (PoolEntry { id: r.0, cancelled: false }),
            ),
            final(self).next_id() == old(self).next_id() + 1,
            r.1.wf(),
            r.1.id() == r.0,
            work matches Work::Launch(l) ==> (r.1.work() matches Work::Launch(n) && n.runner()
                == l.runner()),
    {
        let id = self.next_id;
        self.next_id = self.next_id + 1;
        self.entries.push(PoolEntry { id, cancelled: false });
        let tagged = work.with_id(id);
        let worker = Worker::new(id, tagged);
        proof {
            let es = self.entries@;
            let old_es = old(self).entries();
            assert(es == old_es.push(PoolEntry { id, cancelled: false }));
            assert(es[es.len() - 1].id == id);
            assert(self.entries()[es.len() - 1].id == id);
            assert forall|i: int| 0 <= i < es.len() implies (#[trigger] self.entries()[i]).id
                < self.next_id() by {
                if i < es.len() - 1 {
                    assert(self.entries()[i] == old_es[i]);
                }
            }
            assert forall|i: int, j: int| 0 <= i < j < es.len() implies (#[trigger] self
                .entries()[i]).id != (#[trigger] self.entries()[j]).id by {
                if j < es.len() - 1 {
                    assert(self.entries()[i] == old_es[i]);
                    assert(self.entries()[j] == old_es[j]);
                } else {
                    assert(self.entries()[i] == old_es[i]);
                    assert(old_es[i].id < id);
                }
            }
        }
        (id, worker)
    }

    /// Set the cancellation flag of the worker tracked under `id`; every
    /// other entry is untouched. Cancellation is advisory: the runner
    /// observes the flag at its next poll point.
    pub fn cancel(&mut self, id: usize)
        requires
            old(self).wf(),
        ensures
            final(self).wf(),
            final(self).next_id() == old(self).next_id(),
            final(self).entries().len() == old(self).entries().len(),
            forall|i: int| 0 <= i < old(self).entries().len() ==> (#[trigger] final(self)
                .entries()[i]) == (PoolEntry {
                id: old(self).entries()[i].id,
                cancelled: old(self).entries()[i].cancelled || old(self).entries()[i].id == id,
            }),
    {
        let ghost before = self.entries@;
        let mut updated: Vec<PoolEntry> = Vec::new();
        let mut i: usize = 0;
        while i < self.entries.len()
            invariant
                i <= before.len(),
                self.entries@ == before,
                self.next_id == old(self).next_id(),
                updated@.len() == i,
                forall|j: int| 0 <= j < i ==> (#[trigger] updated@[j]) == (PoolEntry {
                    id: before[j].id,
                    cancelled: before[j].cancelled || before[j].id == id,
                }),
            decreases before.len() - i,
        {
            let e = self.entries[i];
            updated.push(PoolEntry { id: e.id, cancelled: e.cancelled || e.id == id });
            i = i + 1;
        }
        self.entries = updated;
        proof {
            let old_es = old(self).entries();
            assert forall|j: int| 0 <= j < self.entries@.len() implies (#[trigger] self
                .entries()[j]).id < self.next_id() by {
                assert(old_es[j].id < old(self).next_id());
            }
            assert forall|j1: int, j2: int| 0 <= j1 < j2 < self.entries@.len() implies
                (#[trigger] self.entries()[j1]).id != (#[trigger] self.entries()[j2]).id by {
                assert(old_es[j1].id != old_es[j2].id);
            }
        }
    }

    /// Process a worker's completion signal: drop the bookkeeping entry for
    /// `id`. This is the only place entries are removed.
    pub fn on_done(&mut self, id: usize)
        requires
            old(self).wf(),
        ensures
            final(self).wf(),
            final(self).next_id() == old(self).next_id(),
            final(self).entries() == without_id(old(self).entries(), id),
            !final(self).tracks(id),
    {
        let ghost before = self.entries@;
        let ghost keep = |e: PoolEntry| e.id != id;
        let mut updated: Vec<PoolEntry> = Vec::new();
        let mut i: usize = 0;
        proof {
            assert(before.take(0) =~= Seq::<PoolEntry>::empty());
            reveal(Seq::filter);
        }
        while i < self.entries.len()
            invariant
                i <= before.len(),
                self.entries@ == before,
                before == old(self).entries(),
                old(self).wf(),
                self.next_id == old(self).next_id(),
                keep == (|e: PoolEntry| e.id != id),
                updated@ == before.take(i as int).filter(keep),
                forall|j: int| 0 <= j < updated@.len() ==> exists|k: int|
                    0 <= k < i && (#[trigger] updated@[j]).id == before[k].id,
                forall|j1: int, j2: int| 0 <= j1 < j2 < updated@.len() ==> updated@[j1].id
                    != updated@[j2].id,
            decreases before.len() - i,
        {
            let e = self.entries[i];
            proof {
                assert(before.take(i + 1) =~= before.take(i as int).push(before[i as int]));
                lemma_filter_push(before.take(i as int), before[i as int], keep);
                if keep(before[i as int]) {
                    assert forall|j: int| 0 <= j < updated@.len() implies (#[trigger] updated@[j]).id
                        != before[i as int].id by {
                        let k = choose|k: int|
                            0 <= k < i && (#[trigger] updated@[j]).id == before[k].id;
                        assert(old(self).entries()[k].id != old(self).entries()[i as int].id);
                    }
                }
            }
            if e.id != id {
                updated.push(e);
            }
            i = i + 1;
        }
        proof {
            assert(before.take(before.len() as int) =~= before);
        }
        self.entries = updated;
        proof {
            assert forall|j: int| 0 <= j < self.entries@.len() implies (#[trigger] self
                .entries()[j]).id != id by {
                before.lemma_filter_pred(keep, j);
            }
            assert forall|j: int| 0 <= j < self.entries@.len() implies (#[trigger] self
                .entries()[j]).id < self.next_id() by {
                let k = choose|k: int|
                    0 <= k < before.len() && self.entries@[j].id == before[k].id;
                assert(old(self).entries()[k].id < old(self).next_id());
            }
        }
    }

    /// Process one internal signal: a worker's completion drops its
    /// bookkeeping entry.
    pub fn on_work_event(&mut self, ev: WorkEvent)
        requires
            old(self).wf(),
        ensures
            final(self).wf(),
            final(self).next_id() == old(self).next_id(),
            ev matches WorkEvent::Done(id) ==> (final(self).entries() == without_id(
                old(self).entries(),
                id,
            ) && !final(self).tracks(id)),
    {
        match ev {
            WorkEvent::Done(id) => self.on_done(id),
        }
    }

    /// Look up the cancellation flag for `id`: present exactly while the
    /// worker is tracked.
    pub fn is_cancelled(&self, id: usize) -> (r: Option<bool>)
        requires
            self.wf(),
        ensures
            r is Some <==> self.tracks(id),
            r matches Some(b) ==> exists|i: int|
                0 <= i < self.entries().len() && (#[trigger] self.entries()[i]) == (PoolEntry {
                    id,
                    cancelled: b,
                }),
    {
        let mut i: usize = 0;
        while i < self.entries.len()
            invariant
                i <= self.entries@.len(),
                forall|j: int| 0 <= j < i ==> (#[trigger] self.entries()[j]).id != id,
            decreases self.entries@.len() - i,
        {
            let e = self.entries[i];
            if e.id == id {
                proof {
                    assert(self.entries()[i as int] == e);
                }
                return Some(e.cancelled);
            }
            i = i + 1;
        }
        None
    }
}

} // verus!
