//! The worker registry: the pool of known workers, at most one record per
//! address, kept in the order in which the addresses first registered.

use vstd::prelude::*;
use crate::modules::{Worker, WorkerView};

verus! {

/// The views of a sequence of worker records, in order.
pub open spec fn worker_views(workers: Seq<Worker>) -> Seq<WorkerView> {
    workers.map_values(|w: Worker| w@)
}

/// No two records share an address.
pub open spec fn distinct_addresses(workers: Seq<WorkerView>) -> bool {
    forall|i: int, j: int|
        0 <= i < j < workers.len() ==> (#[trigger] workers[i]).ip_addr != (#[trigger] workers[j]).ip_addr
}

/// Some record is stored under `addr`.
pub open spec fn known(workers: Seq<WorkerView>, addr: Seq<char>) -> bool {
    exists|i: int| 0 <= i < workers.len() && (#[trigger] workers[i]).ip_addr == addr
}

/// The place of the record stored under `addr`, where there is one.
pub open spec fn index_of(workers: Seq<WorkerView>, addr: Seq<char>) -> int {
    choose|i: int| 0 <= i < workers.len() && (#[trigger] workers[i]).ip_addr == addr
}

/// Registration: the record under the worker's address is replaced where
/// there is one, and the worker is added at the end where there is none.
pub open spec fn upsert(workers: Seq<WorkerView>, worker: WorkerView) -> Seq<WorkerView> {
    if known(workers, worker.ip_addr) {
        workers.update(index_of(workers, worker.ip_addr), worker)
    } else {
        workers.push(worker)
    }
}

/// The pool with the `busy` flag of the worker at `addr` set to `busy`;
/// unchanged where the address is unknown.
pub open spec fn with_busy(workers: Seq<WorkerView>, addr: Seq<char>, busy: bool) -> Seq<WorkerView> {
    if known(workers, addr) {
        let i = index_of(workers, addr);
        workers.update(i, WorkerView { is_busy: busy, ..workers[i] })
    } else {
        workers
    }
}

/// The pool with the `offline` flag of the worker at `addr` set to
/// `offline`; unchanged where the address is unknown.
pub open spec fn with_offline(workers: Seq<WorkerView>, addr: Seq<char>, offline: bool) -> Seq<
    WorkerView,
> {
    if known(workers, addr) {
        let i = index_of(workers, addr);
        workers.update(i, WorkerView { offline, ..workers[i] })
    } else {
        workers
    }
}

/// With distinct addresses, a place that holds `addr` is the place of `addr`.
pub proof fn lemma_index_of_unique(workers: Seq<WorkerView>, addr: Seq<char>, i: int)
    requires
        distinct_addresses(workers),
        0 <= i < workers.len(),
        workers[i].ip_addr == addr,
    ensures
        known(workers, addr),
        index_of(workers, addr) == i,
{
    let c = index_of(workers, addr);
    assert(0 <= c < workers.len() && workers[c].ip_addr == addr);
    if c < i {
        assert(workers[c].ip_addr != workers[i].ip_addr);
    } else if i < c {
        assert(workers[i].ip_addr != workers[c].ip_addr);
    }
}

/// Registration keeps addresses distinct.
pub proof fn lemma_upsert_distinct(workers: Seq<WorkerView>, worker: WorkerView)
    requires
        distinct_addresses(workers),
    ensures
        distinct_addresses(upsert(workers, worker)),
        known(upsert(workers, worker), worker.ip_addr),
        upsert(workers, worker)[index_of(upsert(workers, worker), worker.ip_addr)] == worker,
{
    let after = upsert(workers, worker);
    if known(workers, worker.ip_addr) {
        let k = index_of(workers, worker.ip_addr);
        assert forall|i: int, j: int| 0 <= i < j < after.len() implies (#[trigger] after[i]).ip_addr
            != (#[trigger] after[j]).ip_addr by {
            assert(workers[i].ip_addr != workers[j].ip_addr);
            assert(after[i].ip_addr == workers[i].ip_addr);
            assert(after[j].ip_addr == workers[j].ip_addr);
        }
        assert(after[k].ip_addr == worker.ip_addr);
        lemma_index_of_unique(after, worker.ip_addr, k);
    } else {
        let n = workers.len() as int;
        assert forall|i: int, j: int| 0 <= i < j < after.len() implies (#[trigger] after[i]).ip_addr
            != (#[trigger] after[j]).ip_addr by {
            if j < n {
                assert(workers[i].ip_addr != workers[j].ip_addr);
            } else {
                assert(after[i] == workers[i]);
                assert(workers[i].ip_addr != worker.ip_addr);
            }
        }
        assert(after[n].ip_addr == worker.ip_addr);
        lemma_index_of_unique(after, worker.ip_addr, n);
    }
}

/// Registering twice under one address leaves exactly one record under that
/// address, and it is the second: the pool is as if the first registration
/// had never been made.
pub proof fn lemma_register_twice(workers: Seq<WorkerView>, first: WorkerView, second: WorkerView)
    requires
        distinct_addresses(workers),
        first.ip_addr == second.ip_addr,
    ensures
        upsert(upsert(workers, first), second) == upsert(workers, second),
        upsert(upsert(workers, first), second).len() == upsert(workers, first).len(),
        forall|i: int|
            0 <= i < upsert(upsert(workers, first), second).len() ==> ((#[trigger] upsert(
                upsert(workers, first),
                second,
            )[i]).ip_addr == second.ip_addr <==> i == index_of(
                upsert(upsert(workers, first), second),
                second.ip_addr,
            )),
        known(upsert(upsert(workers, first), second), second.ip_addr),
        upsert(upsert(workers, first), second)[index_of(
            upsert(upsert(workers, first), second),
            second.ip_addr,
        )] == second,
{
    let once = upsert(workers, first);
    let twice = upsert(once, second);
    lemma_upsert_distinct(workers, first);
    lemma_upsert_distinct(once, second);
    lemma_upsert_distinct(workers, second);
    let k = index_of(once, first.ip_addr);
    assert(known(once, second.ip_addr));
    if known(workers, first.ip_addr) {
        let w = index_of(workers, first.ip_addr);
        assert(once[w].ip_addr == first.ip_addr);
        lemma_index_of_unique(once, first.ip_addr, w);
    } else {
        let n = workers.len() as int;
        assert(once[n].ip_addr == first.ip_addr);
        lemma_index_of_unique(once, first.ip_addr, n);
    }
    assert(twice =~= upsert(workers, second));
    assert forall|i: int| 0 <= i < twice.len() implies ((#[trigger] twice[i]).ip_addr
        == second.ip_addr <==> i == index_of(twice, second.ip_addr)) by {
        if twice[i].ip_addr == second.ip_addr {
            lemma_index_of_unique(twice, second.ip_addr, i);
        }
    }
}

/// Setting a flag changes no address, so the addresses stay distinct and
/// every address stays where it was.
pub proof fn lemma_flags_keep_addresses(workers: Seq<WorkerView>, addr: Seq<char>, flag: bool)
    requires
        distinct_addresses(workers),
    ensures
        distinct_addresses(with_busy(workers, addr, flag)),
        distinct_addresses(with_offline(workers, addr, flag)),
        with_busy(workers, addr, flag).len() == workers.len(),
        with_offline(workers, addr, flag).len() == workers.len(),
        forall|i: int|
            0 <= i < workers.len() ==> (#[trigger] with_busy(workers, addr, flag)[i]).ip_addr
                == workers[i].ip_addr,
        forall|i: int|
            0 <= i < workers.len() ==> (#[trigger] with_offline(workers, addr, flag)[i]).ip_addr
                == workers[i].ip_addr,
{
    let b = with_busy(workers, addr, flag);
    let o = with_offline(workers, addr, flag);
    assert forall|i: int, j: int| 0 <= i < j < b.len() implies (#[trigger] b[i]).ip_addr != (
    #[trigger] b[j]).ip_addr by {
        assert(workers[i].ip_addr != workers[j].ip_addr);
    }
    assert forall|i: int, j: int| 0 <= i < j < o.len() implies (#[trigger] o[i]).ip_addr != (
    #[trigger] o[j]).ip_addr by {
        assert(workers[i].ip_addr != workers[j].ip_addr);
    }
}

/// The pool of workers known to the coordinator.
pub struct WorkerRegistry {
    workers: Vec<Worker>,
}

impl View for WorkerRegistry {
    type V = Seq<WorkerView>;

    closed spec fn view(&self) -> Seq<WorkerView> {
        worker_views(self.workers@)
    }
}

impl WorkerRegistry {
    #[verifier::type_invariant]
    spec fn inv(self) -> bool {
        distinct_addresses(worker_views(self.workers@))
    }

    /// An empty pool.
    pub fn new() -> (registry: WorkerRegistry)
        ensures
            registry@ == Seq::<WorkerView>::empty(),
    {
        let registry = WorkerRegistry { workers: Vec::new() };
        assert(registry@ =~= Seq::<WorkerView>::empty());
        registry
    }

    /// The number of workers in the pool.
    pub fn len(&self) -> (n: usize)
        ensures
            n == self@.len(),
    {
        self.workers.len()
    }

    /// The place of the record stored under `addr`.
    fn position(workers: &Vec<Worker>, addr: &String) -> (place: Option<usize>)
        requires
            distinct_addresses(worker_views(workers@)),
        ensures
            place is Some <==> known(worker_views(workers@), addr@),
            place is Some ==> place.unwrap() == index_of(worker_views(workers@), addr@),
            place is Some ==> place.unwrap() < workers.len(),
    {
        let ghost views = worker_views(workers@);
        let mut i: usize = 0;
        while i < workers.len()
            invariant
                i <= workers.len(),
                views == worker_views(workers@),
                distinct_addresses(views),
                forall|k: int| 0 <= k < i ==> (#[trigger] views[k]).ip_addr != addr@,
            decreases workers.len() - i,
        {
            if workers[i].ip_addr == *addr {
                proof {
                    assert(views[i as int].ip_addr == addr@);
                    lemma_index_of_unique(views, addr@, i as int);
                }
                return Some(i);
            }
            i += 1;
        }
        None
    }

    /// The record stored under `addr`, where there is one.
    pub fn get(&self, addr: &String) -> (found: Option<Worker>)
        ensures
            found is Some <==> known(self@, addr@),
            found is Some ==> found.unwrap()@ == self@[index_of(self@, addr@)],
            distinct_addresses(self@),
    {
        proof {
            use_type_invariant(&*self);
        }
        match Self::position(&self.workers, addr) {
            Some(i) => Some(self.workers[i].clone()),
            None => None,
        }
    }

    /// Stores `worker` under its address, in place of the record that was
    /// there, or at the end of the pool where the address is new.
    pub fn register(&mut self, worker: Worker)
        ensures
            final(self)@ == upsert(old(self)@, worker@),
            distinct_addresses(final(self)@),
    {
        proof {
            use_type_invariant(&*self);
            lemma_upsert_distinct(self@, worker@);
        }
        let ghost before = self@;
        let mut workers: Vec<Worker> = Vec::new();
        std::mem::swap(&mut workers, &mut self.workers);
        match Self::position(&workers, &worker.ip_addr) {
            Some(i) => {
                workers.set(i, worker);
            },
            None => {
                workers.push(worker);
            },
        }
        assert(worker_views(workers@) =~= upsert(before, worker@));
        self.workers = workers;
    }

    /// Sets the `busy` flag of the worker at `addr`, and says whether the
    /// address is known.
    pub fn set_busy(&mut self, addr: &String, busy: bool) -> (found: bool)
        ensures
            found == known(old(self)@, addr@),
            final(self)@ == with_busy(old(self)@, addr@, busy),
            distinct_addresses(final(self)@),
    {
        proof {
            use_type_invariant(&*self);
            lemma_flags_keep_addresses(self@, addr@, busy);
        }
        let ghost before = self@;
        let mut workers: Vec<Worker> = Vec::new();
        std::mem::swap(&mut workers, &mut self.workers);
        let found = match Self::position(&workers, addr) {
            Some(i) => {
                let mut record = workers[i].clone();
                record.is_busy = busy;
                workers.set(i, record);
                true
            },
            None => false,
        };
        assert(worker_views(workers@) =~= with_busy(before, addr@, busy));
        self.workers = workers;
        found
    }

    /// Sets the `offline` flag of the worker at `addr`, and says whether the
    /// address is known.
    pub fn set_offline(&mut self, addr: &String, offline: bool) -> (found: bool)
        ensures
            found == known(old(self)@, addr@),
            final(self)@ == with_offline(old(self)@, addr@, offline),
            distinct_addresses(final(self)@),
    {
        proof {
            use_type_invariant(&*self);
            lemma_flags_keep_addresses(self@, addr@, offline);
        }
        let ghost before = self@;
        let mut workers: Vec<Worker> = Vec::new();
        std::mem::swap(&mut workers, &mut self.workers);
        let found = match Self::position(&workers, addr) {
            Some(i) => {
                let mut record = workers[i].clone();
                record.offline = offline;
                workers.set(i, record);
                true
            },
            None => false,
        };
        assert(worker_views(workers@) =~= with_offline(before, addr@, offline));
        self.workers = workers;
        found
    }

    /// A copy of the pool as it stands, in registration order. The copy is
    /// the caller's own: later changes to the registry do not touch it.
    pub fn snapshot(&self) -> (copy: Vec<Worker>)
        ensures
            worker_views(copy@) == self@,
            distinct_addresses(self@),
    {
        proof {
            use_type_invariant(&*self);
        }
        let mut copy: Vec<Worker> = Vec::new();
        let mut i: usize = 0;
        while i < self.workers.len()
            invariant
                i <= self.workers.len(),
                copy.len() == i,
                forall|k: int| 0 <= k < i ==> (#[trigger] copy[k])@ == self.workers[k]@,
            decreases self.workers.len() - i,
        {
            copy.push(self.workers[i].clone());
            i += 1;
        }
        assert(worker_views(copy@) =~= worker_views(self.workers@));
        copy
    }
}

/// An empty worker registry.
pub fn blank_worker_index() -> (registry: WorkerRegistry)
    ensures
        registry@ == Seq::<WorkerView>::empty(),
{
    WorkerRegistry::new()
}

} // verus!
