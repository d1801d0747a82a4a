//! The registry of live timer handles, keyed by job id.
//!
//! This is the only mutable state of the engine.  It binds each scheduled
//! job id to the one timer handle that is live for it; callers retire the
//! handle the registry returns whenever a binding is replaced or removed.

use vstd::prelude::*;
use vstd::hash_map::HashMapWithView;

verus! {

/// Maps each scheduled job id to its one live timer handle.
pub struct JobRegistry {
    handles: HashMapWithView<i64, u128>,
    ids: Vec<i64>,
}

impl View for JobRegistry {
    type V = Map<i64, u128>;

    closed spec fn view(&self) -> Map<i64, u128> {
        self.handles@
    }
}

impl JobRegistry {
    /// The id list mirrors the map's domain, without duplicates.
    pub closed spec fn wf(self) -> bool {
        &&& self.ids@.no_duplicates()
        &&& forall|i: int| 0 <= i < self.ids@.len() ==> self.handles@.dom().contains(
            #[trigger] self.ids@[i],
        )
        &&& forall|k: i64| #[trigger] self.handles@.dom().contains(k) ==> self.ids@.contains(k)
    }

    /// Creates an empty registry.
    pub fn new() -> (r: JobRegistry)
        ensures
            r.wf(),
            r@ == Map::<i64, u128>::empty(),
    {
        JobRegistry { handles: HashMapWithView::new(), ids: Vec::new() }
    }

    /// The number of jobs that hold a live handle.
    pub fn len(&self) -> (n: usize)
        requires
            self.wf(),
        ensures
            n == self@.dom().len(),
    {
        proof {
            assert(self.ids@.to_set() =~= self@.dom());
            self.ids@.unique_seq_to_set();
        }
        self.ids.len()
    }

    /// Whether a job currently holds a live handle.
    pub fn contains(&self, job_id: i64) -> (r: bool)
        ensures
            r == self@.dom().contains(job_id),
    {
        self.handles.contains_key(&job_id)
    }

    /// The live handle for a job, if it has one.
    pub fn get(&self, job_id: i64) -> (r: Option<u128>)
        ensures
            match r {
                Some(h) => self@.dom().contains(job_id) && h == self@[job_id],
                None => !self@.dom().contains(job_id),
            },
    {
        match self.handles.get(&job_id) {
            Some(h) => Some(*h),
            None => None,
        }
    }

    /// Binds a job id to a handle, returning the handle it displaces, which
    /// the caller must retire: a job never keeps two live handles.
    pub fn put(&mut self, job_id: i64, handle: u128) -> (prev: Option<u128>)
        requires
            old(self).wf(),
        ensures
            final(self).wf(),
            final(self)@ == old(self)@.insert(job_id, handle),
            prev == (if old(self)@.dom().contains(job_id) {
                Some(old(self)@[job_id])
            } else {
                Option::<u128>::None
            }),
    {
        let prev = self.get(job_id);
        if prev.is_none() {
            proof {
                if old(self).ids@.contains(job_id) {
                    let w = choose|w: int|
                        0 <= w < old(self).ids@.len() && old(self).ids@[w] == job_id;
                    assert(old(self).handles@.dom().contains(job_id));
                }
            }
            self.ids.push(job_id);
            proof {
                assert forall|k: i64| self.handles@.insert(job_id, handle).dom().contains(
                    k,
                ) implies self.ids@.contains(k) by {
                    if k == job_id {
                        assert(self.ids@[self.ids@.len() - 1] == job_id);
                    } else {
                        assert(old(self).handles@.dom().contains(k));
                        assert(old(self).ids@.contains(k));
                        let w = choose|w: int|
                            0 <= w < old(self).ids@.len() && old(self).ids@[w] == k;
                        assert(self.ids@[w] == k);
                    }
                }
            }
        }
        self.handles.insert(job_id, handle);
        prev
    }

    /// Removes a job's binding, returning the handle that was live for it,
    /// which the caller must retire.  Removing an absent id changes nothing.
    pub fn remove(&mut self, job_id: i64) -> (prev: Option<u128>)
        requires
            old(self).wf(),
        ensures
            final(self).wf(),
            final(self)@ == old(self)@.remove(job_id),
            prev == (if old(self)@.dom().contains(job_id) {
                Some(old(self)@[job_id])
            } else {
                Option::<u128>::None
            }),
    {
        let prev = self.handles.remove(&job_id);
        if prev.is_some() {
            proof {
                let w = choose|w: int| 0 <= w < self.ids@.len() && self.ids@[w] == job_id;
                assert(self.ids@.len() > 0);
            }
            let mut i: usize = 0;
            let n = self.ids.len();
            loop
                invariant
                    i < n,
                    n == self.ids@.len(),
                    self.ids@.no_duplicates(),
                    forall|j: int| 0 <= j < i ==> self.ids@[j] != job_id,
                    self.ids@.contains(job_id),
                ensures
                    i < self.ids@.len() && self.ids@[i as int] == job_id,
                decreases n - i,
            {
                if self.ids[i] == job_id {
                    break;
                }
                i = i + 1;
                proof {
                    if i >= n {
                        let w = choose|w: int|
                            0 <= w < self.ids@.len() && self.ids@[w] == job_id;
                        assert(false);
                    }
                }
            }
            let ghost before = self.ids@;
            self.ids.remove(i);
            proof {
                before.remove_ensures(i as int);
                assert forall|k: i64| self.handles@.dom().contains(k) implies self
                    .ids@.contains(k) by {
                    assert(old(self).handles@.dom().contains(k) && k != job_id);
                    assert(before.contains(k));
                    let w = choose|w: int| 0 <= w < before.len() && before[w] == k;
                    if w < i {
                        assert(self.ids@[w] == k);
                    } else {
                        assert(self.ids@[w - 1] == k);
                    }
                }
                assert(self.ids@.no_duplicates()) by {
                    assert forall|p: int, q: int|
                        0 <= p < self.ids@.len() && 0 <= q < self.ids@.len() && p != q implies self
                        .ids@[p] != self.ids@[q] by {
                        let bp = if p < i { p } else { p + 1 };
                        let bq = if q < i { q } else { q + 1 };
                        assert(self.ids@[p] == before[bp]);
                        assert(self.ids@[q] == before[bq]);
                    }
                }
            }
        }
        prev
    }

    /// The ids of all jobs that hold a live handle, without duplicates.
    pub fn job_ids(&self) -> (r: Vec<i64>)
        requires
            self.wf(),
        ensures
            r@.no_duplicates(),
            forall|i: int| 0 <= i < r@.len() ==> self@.dom().contains(#[trigger] r@[i]),
            forall|k: i64| self@.dom().contains(k) ==> r@.contains(k),
    {
        let mut out: Vec<i64> = Vec::new();
        let n = self.ids.len();
        for i in 0..n
            invariant
                n == self.ids@.len(),
                out@ =~= self.ids@.take(i as int),
                self.wf(),
        {
            out.push(self.ids[i]);
        }
        proof {
            assert(out@ =~= self.ids@);
        }
        out
    }
}

} // verus!
