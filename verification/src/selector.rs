//! Worker selection: among the workers that are neither busy nor offline,
//! the one whose capacity lies closest to the request; among equally close
//! ones, the first in the order of the snapshot.

use vstd::prelude::*;
use crate::modules::{Worker, WorkerView};
use crate::workers::worker_views;

verus! {

/// The distance between two amounts.
pub open spec fn gap(a: int, b: int) -> int {
    if a >= b {
        a - b
    } else {
        b - a
    }
}

/// Twice the cost of running the request on `worker`. The cost weighs the
/// cpu gap and the memory gap by one half each; doubled, it is the sum of the
/// two gaps, an integer that orders workers exactly as the cost does.
pub open spec fn doubled_cost(cpus: i32, memory: i32, worker: WorkerView) -> int {
    gap(cpus as int, worker.num_cpu as int) + gap(memory as int, worker.memory_capacity_mb as int)
}

/// No worker of the snapshot can take a job.
pub open spec fn none_eligible(workers: Seq<WorkerView>) -> bool {
    forall|j: int| 0 <= j < workers.len() ==> !(#[trigger] workers[j]).eligible()
}

/// `i` is the place of the worker to select: it is eligible, no eligible
/// worker is cheaper, and every eligible worker before it costs more.
pub open spec fn selects(cpus: i32, memory: i32, workers: Seq<WorkerView>, i: int) -> bool {
    &&& 0 <= i < workers.len()
    &&& workers[i].eligible()
    &&& forall|j: int|
        0 <= j < workers.len() && (#[trigger] workers[j]).eligible() ==> doubled_cost(
            cpus,
            memory,
            workers[i],
        ) <= doubled_cost(cpus, memory, workers[j])
    &&& forall|j: int|
        0 <= j < i && (#[trigger] workers[j]).eligible() ==> doubled_cost(cpus, memory, workers[i])
            < doubled_cost(cpus, memory, workers[j])
}

/// The place of the selected worker, or `None` where no worker is eligible.
pub open spec fn selected(cpus: i32, memory: i32, workers: Seq<WorkerView>) -> Option<int> {
    if exists|i: int| selects(cpus, memory, workers, i) {
        Some(choose|i: int| selects(cpus, memory, workers, i))
    } else {
        None
    }
}

/// The address of the selected worker, or `None` where no worker is eligible.
pub open spec fn selected_address(cpus: i32, memory: i32, workers: Seq<WorkerView>) -> Option<
    Seq<char>,
> {
    match selected(cpus, memory, workers) {
        Some(i) => Some(workers[i].ip_addr),
        None => None,
    }
}

/// At most one place is selected.
pub proof fn lemma_selects_unique(cpus: i32, memory: i32, workers: Seq<WorkerView>, i: int, j: int)
    requires
        selects(cpus, memory, workers, i),
        selects(cpus, memory, workers, j),
    ensures
        i == j,
{
    if i < j {
        assert(workers[i].eligible());
        assert(doubled_cost(cpus, memory, workers[j]) < doubled_cost(cpus, memory, workers[i]));
        assert(workers[j].eligible());
        assert(doubled_cost(cpus, memory, workers[i]) <= doubled_cost(cpus, memory, workers[j]));
    } else if j < i {
        assert(workers[j].eligible());
        assert(doubled_cost(cpus, memory, workers[i]) < doubled_cost(cpus, memory, workers[j]));
        assert(workers[i].eligible());
        assert(doubled_cost(cpus, memory, workers[j]) <= doubled_cost(cpus, memory, workers[i]));
    }
}

/// A place that `selects` holds of is the selected place.
pub proof fn lemma_selected_is(cpus: i32, memory: i32, workers: Seq<WorkerView>, i: int)
    requires
        selects(cpus, memory, workers, i),
    ensures
        selected(cpus, memory, workers) == Some(i),
{
    let c = choose|k: int| selects(cpus, memory, workers, k);
    lemma_selects_unique(cpus, memory, workers, c, i);
}

/// Among the first `n` workers, either none is eligible or one place is the
/// cheapest eligible one, first among equals.
proof fn lemma_best_of_prefix(cpus: i32, memory: i32, workers: Seq<WorkerView>, n: int) -> (best:
    Option<int>)
    requires
        0 <= n <= workers.len(),
    ensures
        best is None ==> forall|j: int| 0 <= j < n ==> !(#[trigger] workers[j]).eligible(),
        best is Some ==> selects(cpus, memory, workers.take(n), best.unwrap()),
    decreases n,
{
    if n == 0 {
        None
    } else {
        let before = lemma_best_of_prefix(cpus, memory, workers, n - 1);
        let shorter = workers.take(n - 1);
        let longer = workers.take(n);
        let last = n - 1;
        assert forall|j: int| 0 <= j < n - 1 implies #[trigger] longer[j] == shorter[j] by {}
        match before {
            None => {
                if workers[last].eligible() {
                    assert(longer[last] == workers[last]);
                    assert forall|j: int| 0 <= j < last implies !(#[trigger] longer[j]).eligible() by {
                        assert(longer[j] == workers[j]);
                    }
                    assert(selects(cpus, memory, longer, last));
                    Some(last)
                } else {
                    None
                }
            },
            Some(b) => {
                assert(longer[last] == workers[last]);
                if workers[last].eligible() && doubled_cost(cpus, memory, workers[last])
                    < doubled_cost(cpus, memory, shorter[b]) {
                    assert forall|j: int| 0 <= j < last && (#[trigger] longer[j]).eligible() implies
                        doubled_cost(cpus, memory, longer[last]) < doubled_cost(
                        cpus,
                        memory,
                        longer[j],
                    ) by {
                        assert(shorter[j].eligible());
                    }
                    assert(selects(cpus, memory, longer, last));
                    Some(last)
                } else {
                    assert(longer[b] == shorter[b]);
                    assert forall|j: int|
                        0 <= j < longer.len() && (#[trigger] longer[j]).eligible() implies doubled_cost(
                        cpus,
                        memory,
                        longer[b],
                    ) <= doubled_cost(cpus, memory, longer[j]) by {
                        if j < last {
                            assert(shorter[j].eligible());
                        }
                    }
                    assert forall|j: int| 0 <= j < b && (#[trigger] longer[j]).eligible() implies
                        doubled_cost(cpus, memory, longer[b]) < doubled_cost(
                        cpus,
                        memory,
                        longer[j],
                    ) by {
                        assert(shorter[j].eligible());
                    }
                    assert(selects(cpus, memory, longer, b));
                    Some(b)
                }
            },
        }
    }
}

/// A worker is selected exactly when some worker is eligible, and the
/// selected worker is eligible: selection never names a worker that is busy
/// or offline, whatever else the snapshot holds.
pub proof fn lemma_selection_eligible(cpus: i32, memory: i32, workers: Seq<WorkerView>)
    ensures
        selected(cpus, memory, workers) is None <==> none_eligible(workers),
        selected(cpus, memory, workers) matches Some(i) ==> 0 <= i < workers.len()
            && !workers[i].is_busy && !workers[i].offline,
{
    let best = lemma_best_of_prefix(cpus, memory, workers, workers.len() as int);
    assert(workers.take(workers.len() as int) =~= workers);
    if let Some(b) = best {
        lemma_selected_is(cpus, memory, workers, b);
        assert(workers[b].eligible());
    }
    if let Some(i) = selected(cpus, memory, workers) {
        assert(selects(cpus, memory, workers, i));
        assert(workers[i].eligible());
    }
}

/// Selection depends on the request and the snapshot alone: a place that
/// meets the rule for one call meets it for every call on the same inputs,
/// and no other place does.
pub proof fn lemma_selection_deterministic(
    cpus: i32,
    memory: i32,
    workers: Seq<WorkerView>,
    first: Option<int>,
    second: Option<int>,
)
    requires
        first matches Some(i) ==> selects(cpus, memory, workers, i),
        first is None ==> none_eligible(workers),
        second matches Some(j) ==> selects(cpus, memory, workers, j),
        second is None ==> none_eligible(workers),
    ensures
        first == second,
        first == selected(cpus, memory, workers),
{
    lemma_selection_eligible(cpus, memory, workers);
    if let Some(i) = first {
        lemma_selected_is(cpus, memory, workers, i);
        assert(workers[i].eligible());
    }
    if let Some(j) = second {
        lemma_selected_is(cpus, memory, workers, j);
        assert(workers[j].eligible());
    }
}

/// Twice the cost of running the request on `worker`.
pub fn doubled_cost_of(cpus: i32, memory: i32, worker: &Worker) -> (cost: i64)
    ensures
        cost == doubled_cost(cpus, memory, worker@),
{
    let cpu_gap: i64 = if cpus >= worker.num_cpu {
        cpus as i64 - worker.num_cpu as i64
    } else {
        worker.num_cpu as i64 - cpus as i64
    };
    let memory_gap: i64 = if memory >= worker.memory_capacity_mb {
        memory as i64 - worker.memory_capacity_mb as i64
    } else {
        worker.memory_capacity_mb as i64 - memory as i64
    };
    cpu_gap + memory_gap
}

/// The place in `workers` of the worker to run a request for `cpus` cpus and
/// `memory` megabytes on, or `None` where every worker is busy or offline.
pub fn select_worker(cpus: i32, memory: i32, workers: &Vec<Worker>) -> (choice: Option<usize>)
    ensures
        choice is Some <==> selected(cpus, memory, worker_views(workers@)) is Some,
        choice is Some ==> choice.unwrap() as int == selected(
            cpus,
            memory,
            worker_views(workers@),
        ).unwrap(),
        choice is Some ==> choice.unwrap() < workers.len(),
{
    let ghost views = worker_views(workers@);
    let mut best: Option<usize> = None;
    let mut best_cost: i64 = 0;
    let mut i: usize = 0;
    while i < workers.len()
        invariant
            i <= workers.len(),
            views == worker_views(workers@),
            best is None ==> forall|j: int| 0 <= j < i ==> !(#[trigger] views[j]).eligible(),
            best is Some ==> selects(cpus, memory, views.take(i as int), best.unwrap() as int),
            best is Some ==> best_cost == doubled_cost(cpus, memory, views[best.unwrap() as int]),
        decreases workers.len() - i,
    {
        let ghost shorter = views.take(i as int);
        let ghost longer = views.take(i + 1);
        proof {
            assert forall|j: int| 0 <= j < i implies #[trigger] longer[j] == shorter[j] by {}
            assert(longer[i as int] == views[i as int]);
        }
        if workers[i].is_eligible() {
            let cost = doubled_cost_of(cpus, memory, &workers[i]);
            match best {
                None => {
                    proof {
                        assert forall|j: int| 0 <= j < i implies !(#[trigger] longer[j]).eligible() by {
                            assert(longer[j] == views[j]);
                        }
                        assert(selects(cpus, memory, longer, i as int));
                    }
                    best = Some(i);
                    best_cost = cost;
                },
                Some(b) => {
                    if cost < best_cost {
                        proof {
                            assert(shorter[b as int] == views[b as int]);
                            assert forall|j: int|
                                0 <= j < i && (#[trigger] longer[j]).eligible() implies doubled_cost(
                                cpus,
                                memory,
                                longer[i as int],
                            ) < doubled_cost(cpus, memory, longer[j]) by {
                                assert(shorter[j].eligible());
                            }
                            assert(selects(cpus, memory, longer, i as int));
                        }
                        best = Some(i);
                        best_cost = cost;
                    } else {
                        proof {
                            lemma_keeps_best(cpus, memory, views, i as int, b as int);
                        }
                    }
                },
            }
        } else {
            proof {
                if let Some(b) = best {
                    lemma_keeps_best(cpus, memory, views, i as int, b as int);
                }
            }
        }
        i += 1;
    }
    proof {
        assert(views.take(i as int) =~= views);
        match best {
            Some(b) => {
                lemma_selected_is(cpus, memory, views, b as int);
            },
            None => {
                lemma_selection_eligible(cpus, memory, views);
            },
        }
    }
    best
}

/// The best place among the first `n` workers stays the best among the first
/// `n + 1` where the next worker is not eligible or is not cheaper.
proof fn lemma_keeps_best(cpus: i32, memory: i32, workers: Seq<WorkerView>, n: int, b: int)
    requires
        0 <= n < workers.len(),
        selects(cpus, memory, workers.take(n), b),
        !workers[n].eligible() || doubled_cost(cpus, memory, workers[b]) <= doubled_cost(
            cpus,
            memory,
            workers[n],
        ),
    ensures
        selects(cpus, memory, workers.take(n + 1), b),
{
    let shorter = workers.take(n);
    let longer = workers.take(n + 1);
    assert forall|j: int| 0 <= j < n implies #[trigger] longer[j] == shorter[j] by {}
    assert(longer[n] == workers[n]);
    assert(shorter[b] == workers[b]);
    assert forall|j: int| 0 <= j < longer.len() && (#[trigger] longer[j]).eligible() implies doubled_cost(
        cpus,
        memory,
        longer[b],
    ) <= doubled_cost(cpus, memory, longer[j]) by {
        if j < n {
            assert(shorter[j].eligible());
        }
    }
    assert forall|j: int| 0 <= j < b && (#[trigger] longer[j]).eligible() implies doubled_cost(
        cpus,
        memory,
        longer[b],
    ) < doubled_cost(cpus, memory, longer[j]) by {
        assert(shorter[j].eligible());
    }
}

/// The address of the worker to run a request for `cpus` cpus and `memory`
/// megabytes on: the eligible worker of least cost, the first of them in the
/// order of `workers` where several cost the same. `None` where every worker
/// is busy or offline, also where `workers` holds a single such worker.
pub fn match_worker(cpus: i32, memory: i32, workers: &Vec<Worker>) -> (addr: Option<String>)
    ensures
        addr is Some <==> selected_address(cpus, memory, worker_views(workers@)) is Some,
        addr is Some ==> addr.unwrap()@ == selected_address(
            cpus,
            memory,
            worker_views(workers@),
        ).unwrap(),
        addr is None <==> none_eligible(worker_views(workers@)),
{
    proof {
        lemma_selection_eligible(cpus, memory, worker_views(workers@));
    }
    match select_worker(cpus, memory, workers) {
        Some(i) => Some(workers[i].ip_addr.clone()),
        None => None,
    }
}

} // verus!
