//! The bookkeeping of a worker's executor: the tasks it runs on behalf of
//! other threads, by identifier, so that a task can be cancelled while it
//! runs and every task still running is stopped when the worker shuts down.

use std::collections::HashMap;
use vstd::prelude::*;
use vstd::std_specs::hash::spec_keys_iter;
use vstd::std_specs::iter::IteratorSpec;

verus! {

broadcast use vstd::std_specs::hash::group_hash_axioms;

/// `handles` lists the values of `entries`, each entry exactly once, in
/// some order.
pub open spec fn lists_entries<H>(handles: Seq<H>, entries: Map<u64, H>) -> bool {
    exists|ids: Seq<u64>|
        #![trigger ids.to_set()]
        ids.no_duplicates() && ids.to_set() == entries.dom() && ids.len() == handles.len()
            && forall|j: int| 0 <= j < ids.len() ==> handles[j] == entries[ids[j]]
}

/// The running tasks of one executor, each under the identifier it was
/// submitted with, held by the handle `H` that stops it.
pub struct TaskTable<H> {
    tasks: HashMap<u64, H>,
}

impl<H> TaskTable<H> {
    /// The tasks that are running.
    pub closed spec fn entries(self) -> Map<u64, H> {
        self.tasks@
    }

    /// A table with no task.
    pub fn new() -> (res: Self)
        ensures
            res.entries() == Map::<u64, H>::empty(),
    {
        TaskTable { tasks: HashMap::new() }
    }

    /// Records the task `id` that has just been started; a handle that was
    /// held under the same identifier is handed back.
    pub fn started(&mut self, id: u64, handle: H) -> (replaced: Option<H>)
        ensures
            final(self).entries() == old(self).entries().insert(id, handle),
            replaced is Some <==> old(self).entries().contains_key(id),
            replaced matches Some(h) ==> h == old(self).entries()[id],
    {
        self.tasks.insert(id, handle)
    }

    /// Forgets the task `id`, which has run to its end.
    pub fn finished(&mut self, id: u64)
        ensures
            final(self).entries() == old(self).entries().remove(id),
    {
        let _ = self.tasks.remove(&id);
    }

    /// The handle of the task `id` that is to be cancelled, if it is still
    /// running; it leaves the table.
    pub fn cancel(&mut self, id: u64) -> (res: Option<H>)
        ensures
            final(self).entries() == old(self).entries().remove(id),
            res is Some <==> old(self).entries().contains_key(id),
            res matches Some(h) ==> h == old(self).entries()[id],
    {
        self.tasks.remove(&id)
    }

    /// The handles of all the tasks still running, to be stopped when the
    /// executor shuts down; the table is left empty.
    pub fn drain(&mut self) -> (res: Vec<H>)
        ensures
            final(self).entries() == Map::<u64, H>::empty(),
            lists_entries(res@, old(self).entries()),
    {
        let ghost before = self.tasks@;
        let mut ids: Vec<u64> = Vec::new();
        for id in it: self.tasks.keys()
            invariant
                ids.len() == it.index(),
                forall|j: int| 0 <= j < ids.len() ==> ids@[j] == *it.seq()[j],
        {
            ids.push(*id);
        }
        proof {
            let keys = spec_keys_iter(&self.tasks).remaining().unref();
            assert(ids@ =~= keys);
        }
        let mut res: Vec<H> = Vec::new();
        let mut i: usize = 0;
        while i < ids.len()
            invariant
                ids@.no_duplicates(),
                ids@.to_set() == before.dom(),
                ids.len() == before.dom().len(),
                i <= ids.len(),
                res.len() == i,
                forall|j: int| 0 <= j < i ==> #[trigger] res@[j] == before[ids@[j]],
                forall|k: u64|
                    #![trigger self.tasks@.contains_key(k)]
                    self.tasks@.contains_key(k) <==> before.contains_key(k)
                        && !ids@.take(i as int).contains(k),
                forall|k: u64| #[trigger] self.tasks@.contains_key(k) ==> self.tasks@[k] == before[k],
            decreases ids.len() - i,
        {
            let id = ids[i];
            assert(ids@.to_set().contains(id));
            assert(!ids@.take(i as int).contains(id)) by {
                if ids@.take(i as int).contains(id) {
                    let j = choose|j: int| 0 <= j < i && ids@.take(i as int)[j] == id;
                    assert(ids@[j] == ids@[i as int]);
                }
            }
            let ghost old_tasks = self.tasks@;
            match self.tasks.remove(&id) {
                Some(handle) => res.push(handle),
                None => {
                    assert(false);
                },
            }
            assert forall|k: u64| #[trigger] self.tasks@.contains_key(k) <==> before.contains_key(k)
                && !ids@.take(i + 1).contains(k) by {
                let next = ids@.take(i + 1);
                if ids@.take(i as int).contains(k) {
                    let j = choose|j: int| 0 <= j < i && ids@.take(i as int)[j] == k;
                    assert(next[j] == k);
                }
                if k == id {
                    assert(next[i as int] == id);
                }
                if next.contains(k) {
                    let j = choose|j: int| 0 <= j < i + 1 && next[j] == k;
                    if j < i {
                        assert(ids@.take(i as int)[j] == k);
                    }
                }
            }
            i = i + 1;
        }
        proof {
            assert forall|k: u64| !#[trigger] self.tasks@.contains_key(k) by {
                if self.tasks@.contains_key(k) {
                    assert(ids@.take(i as int) =~= ids@);
                    assert(ids@.to_set().contains(k));
                }
            }
            assert(self.tasks@ =~= Map::<u64, H>::empty());
            assert(lists_entries(res@, before));
        }
        res
    }
}

} // verus!
