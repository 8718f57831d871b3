//! The job registry: every job that was ever accepted, under an id that is
//! drawn at random and never given out twice. Nothing is ever removed, so
//! the registry grows for as long as the process lives.

use std::collections::HashMap;
use rand::Rng;
use vstd::prelude::*;
use crate::modules::{CoordinatorError, Job, JobModel, JobModelView, JobState};

verus! {

/// Ids are drawn below this bound unless a registry is made with another.
pub const DEFAULT_ID_SPACE: i32 = 100_000_000;

/// How many random candidates are tried before the registry settles for the
/// lowest free id.
pub const DRAW_LIMIT: u32 = 64;

/// Every record is stored under its own id, the id lies in the id space, and
/// the record's finish time is set exactly when it is terminal.
pub open spec fn sound(jobs: Map<i32, JobModelView>, space: int) -> bool {
    forall|id: i32| #[trigger]
        jobs.contains_key(id) ==> 0 <= id < space && jobs[id].job_id == id && jobs[id].wf()
}

/// `id` lies in the id space and no job is stored under it.
pub open spec fn free(jobs: Map<i32, JobModelView>, space: int, id: i32) -> bool {
    0 <= id < space && !jobs.contains_key(id)
}

/// Every id of the id space is taken.
pub open spec fn full(jobs: Map<i32, JobModelView>, space: int) -> bool {
    forall|id: i32| 0 <= id < space ==> #[trigger] jobs.contains_key(id)
}

/// A change to one record, applied in one step.
#[derive(Debug, PartialEq, Eq)]
pub enum JobChange {
    /// A worker has taken the job.
    Start,
    /// The job ran to its end and produced `output`.
    Succeed { output: String, finished_at: u64 },
    /// The job failed; `output` says why.
    Fail { output: String, finished_at: u64 },
}

/// A change to a record as the contracts see it.
pub enum JobChangeView {
    Start,
    Succeed { output: Seq<char>, finished_at: u64 },
    Fail { output: Seq<char>, finished_at: u64 },
}

impl View for JobChange {
    type V = JobChangeView;

    open spec fn view(&self) -> JobChangeView {
        match self {
            JobChange::Start => JobChangeView::Start,
            JobChange::Succeed { output, finished_at } => JobChangeView::Succeed {
                output: output@,
                finished_at: *finished_at,
            },
            JobChange::Fail { output, finished_at } => JobChangeView::Fail {
                output: output@,
                finished_at: *finished_at,
            },
        }
    }
}

impl JobChangeView {
    /// A change that closes a job must carry a finish time that is set.
    pub open spec fn accepted(self) -> bool {
        match self {
            JobChangeView::Start => true,
            JobChangeView::Succeed { finished_at, .. } => finished_at != 0,
            JobChangeView::Fail { finished_at, .. } => finished_at != 0,
        }
    }

    /// The record after the change. A job that is already terminal does not
    /// start again; a later close replaces an earlier one.
    pub open spec fn apply(self, record: JobModelView) -> JobModelView {
        match self {
            JobChangeView::Start => if record.state.is_terminal() {
                record
            } else {
                record.running()
            },
            JobChangeView::Succeed { output, finished_at } => record.finished(
                JobState::Succeeded,
                output,
                finished_at,
            ),
            JobChangeView::Fail { output, finished_at } => record.finished(
                JobState::Failed,
                output,
                finished_at,
            ),
        }
    }
}

/// A change that is accepted keeps a record well formed, keeps its id and its
/// request, and never takes a job out of a terminal state.
pub proof fn lemma_apply_keeps_wf(change: JobChangeView, record: JobModelView)
    requires
        change.accepted(),
        record.wf(),
    ensures
        change.apply(record).wf(),
        change.apply(record).job_id == record.job_id,
        change.apply(record).job == record.job,
        change.apply(record).started_at == record.started_at,
        record.state.is_terminal() ==> change.apply(record).state.is_terminal(),
{
}

/// Ids that are given out one after another are pairwise distinct.
///
/// `states[i]` is the registry just before the submission that was given
/// `ids[i]`, and the last state is the registry after the last submission.
/// Between two submissions the registry may change in any way that removes
/// no job.
pub proof fn lemma_ids_distinct(states: Seq<Map<i32, JobModelView>>, ids: Seq<i32>)
    requires
        states.len() == ids.len() + 1,
        forall|i: int|
            0 <= i < ids.len() ==> !(#[trigger] states[i]).contains_key(ids[i]) && states[i
                + 1].contains_key(ids[i]) && states[i].dom().subset_of(states[i + 1].dom()),
    ensures
        forall|i: int, j: int| 0 <= i < j < ids.len() ==> ids[i] != ids[j],
        ids.no_duplicates(),
{
    assert forall|i: int, j: int| 0 <= i < j < ids.len() implies ids[i] != ids[j] by {
        assert(0 <= i < ids.len());
        let before = states[i];
        assert(!before.contains_key(ids[i]));
        assert(states[i + 1].contains_key(ids[i]));
        lemma_jobs_stay(states, ids, i + 1, j, ids[i]);
        assert(!states[j].contains_key(ids[j]));
    }
}

/// A job that is in the registry at one point of a history is in it at
/// every later point.
proof fn lemma_jobs_stay(
    states: Seq<Map<i32, JobModelView>>,
    ids: Seq<i32>,
    from: int,
    to: int,
    id: i32,
)
    requires
        states.len() == ids.len() + 1,
        forall|i: int|
            0 <= i < ids.len() ==> !(#[trigger] states[i]).contains_key(ids[i]) && states[i
                + 1].contains_key(ids[i]) && states[i].dom().subset_of(states[i + 1].dom()),
        0 <= from <= to < states.len(),
        states[from].contains_key(id),
    ensures
        states[to].contains_key(id),
    decreases to - from,
{
    if from < to {
        lemma_jobs_stay(states, ids, from, to - 1, id);
        assert(states[to - 1].dom().subset_of(states[to - 1 + 1].dom()));
        assert(states[to - 1].dom().contains(id));
    }
}

/// `rand::Rng::gen_range` on the generator of the current thread
/// (`rand::thread_rng`), over the half-open range from zero to `bound`.
/// The contract claims only what every draw has: the candidate lies in the
/// range. Two draws need not agree. `gen_range` panics on an empty range,
/// which the precondition leaves out.
#[verifier::external_body]
fn draw_below(bound: i32) -> (candidate: i32)
    requires
        bound > 0,
    ensures
        0 <= candidate < bound,
{
    rand::thread_rng().gen_range(0..bound)
}

/// The jobs known to the coordinator. Nothing is ever removed.
pub struct JobRegistry {
    jobs: HashMap<i32, JobModel>,
    id_space: i32,
}

impl View for JobRegistry {
    type V = Map<i32, JobModelView>;

    closed spec fn view(&self) -> Map<i32, JobModelView> {
        self.jobs@.map_values(|record: JobModel| record@)
    }
}

impl JobRegistry {
    #[verifier::type_invariant]
    spec fn inv(self) -> bool {
        &&& self.id_space > 0
        &&& sound(self.jobs@.map_values(|record: JobModel| record@), self.id_space as int)
    }

    /// The bound below which this registry draws its ids.
    pub closed spec fn space(&self) -> int {
        self.id_space as int
    }

    /// An empty registry that draws its ids below `DEFAULT_ID_SPACE`.
    pub fn new() -> (registry: JobRegistry)
        ensures
            registry@ == Map::<i32, JobModelView>::empty(),
            registry.space() == DEFAULT_ID_SPACE,
    {
        let registry = JobRegistry { jobs: HashMap::new(), id_space: DEFAULT_ID_SPACE };
        assert(registry@ =~= Map::<i32, JobModelView>::empty());
        registry
    }

    /// An empty registry that draws its ids below `id_space`; `None` where
    /// `id_space` is not positive, since such a registry could hold no job.
    pub fn with_id_space(id_space: i32) -> (made: Option<JobRegistry>)
        ensures
            made is Some <==> id_space > 0,
            made matches Some(registry) ==> registry@ == Map::<i32, JobModelView>::empty()
                && registry.space() == id_space,
    {
        if id_space > 0 {
            let registry = JobRegistry { jobs: HashMap::new(), id_space };
            assert(registry@ =~= Map::<i32, JobModelView>::empty());
            Some(registry)
        } else {
            None
        }
    }

    /// The bound below which this registry draws its ids.
    pub fn id_space(&self) -> (bound: i32)
        ensures
            bound == self.space(),
            bound > 0,
    {
        proof {
            use_type_invariant(&*self);
        }
        self.id_space
    }

    /// The number of jobs in the registry.
    pub fn len(&self) -> (n: usize)
        ensures
            n == self@.dom().len(),
            self@.dom().finite(),
    {
        broadcast use vstd::std_specs::hash::group_hash_axioms;

        assert(self@.dom() =~= self.jobs@.dom());
        self.jobs.len()
    }

    /// Whether a job is stored under `id`.
    pub fn contains(&self, id: i32) -> (known: bool)
        ensures
            known == self@.contains_key(id),
    {
        broadcast use vstd::std_specs::hash::group_hash_axioms;

        self.jobs.contains_key(&id)
    }

    /// A copy of the record stored under `id`, where there is one.
    pub fn get(&self, id: i32) -> (found: Option<JobModel>)
        ensures
            found is Some <==> self@.contains_key(id),
            found matches Some(record) ==> record@ == self@[id],
            sound(self@, self.space()),
    {
        broadcast use vstd::std_specs::hash::group_hash_axioms;

        proof {
            use_type_invariant(&*self);
        }
        match self.jobs.get(&id) {
            Some(record) => Some(record.clone()),
            None => None,
        }
    }

    /// Whether `candidate` can be given to a new job: it lies in the id
    /// space and no job is stored under it.
    pub fn is_free(&self, candidate: i32) -> (ok: bool)
        ensures
            ok == free(self@, self.space(), candidate),
    {
        broadcast use vstd::std_specs::hash::group_hash_axioms;

        0 <= candidate && candidate < self.id_space && !self.jobs.contains_key(&candidate)
    }

    /// The lowest id that is free, or `None` where every id is taken.
    pub fn lowest_free(&self) -> (found: Option<i32>)
        ensures
            found is None <==> full(self@, self.space()),
            found matches Some(id) ==> free(self@, self.space(), id) && forall|below: i32|
                0 <= below < id ==> #[trigger] self@.contains_key(below),
    {
        broadcast use vstd::std_specs::hash::group_hash_axioms;

        proof {
            use_type_invariant(&*self);
        }
        let mut id: i32 = 0;
        while id < self.id_space
            invariant
                0 <= id <= self.id_space,
                forall|below: i32| 0 <= below < id ==> #[trigger] self@.contains_key(below),
            decreases self.id_space - id,
        {
            if !self.jobs.contains_key(&id) {
                assert(!self@.contains_key(id));
                return Some(id);
            }
            assert(self@.contains_key(id));
            id += 1;
        }
        None
    }

    /// An id for a new job: a random candidate where one of the first
    /// `DRAW_LIMIT` draws is free, else the lowest free id. `None` exactly
    /// when every id of the id space is taken.
    pub fn next_key(&self) -> (key: Option<i32>)
        ensures
            key is None <==> full(self@, self.space()),
            key matches Some(id) ==> free(self@, self.space(), id),
    {
        proof {
            use_type_invariant(&*self);
        }
        let mut draws: u32 = 0;
        while draws < DRAW_LIMIT
            invariant
                draws <= DRAW_LIMIT,
                self.id_space > 0,
            decreases DRAW_LIMIT - draws,
        {
            let candidate = draw_below(self.id_space);
            if self.is_free(candidate) {
                assert(!self@.contains_key(candidate));
                return Some(candidate);
            }
            draws += 1;
        }
        self.lowest_free()
    }

    /// Accepts `job`: reserves a fresh id and stores a `Queued` record under
    /// it, in one step. `Err(RegistryFull)` exactly when no id is free; the
    /// registry is then unchanged.
    pub fn create_job(&mut self, job: Job, now: u64) -> (made: Result<i32, CoordinatorError>)
        ensures
            made is Err <==> full(old(self)@, old(self).space()),
            made matches Err(e) ==> e == CoordinatorError::RegistryFull && final(self)@ == old(self)@,
            made matches Ok(id) ==> free(old(self)@, old(self).space(), id) && final(self)@ == old(
                self,
            )@.insert(id, JobModelView::queued(job@, id, now)),
            final(self).space() == old(self).space(),
            sound(final(self)@, final(self).space()),
    {
        broadcast use vstd::std_specs::hash::group_hash_axioms;

        proof {
            use_type_invariant(&*self);
        }
        match self.next_key() {
            None => Err(CoordinatorError::RegistryFull),
            Some(id) => {
                let ghost before = self@;
                let record = JobModel::new(job, id, now);
                let mut jobs: HashMap<i32, JobModel> = HashMap::new();
                std::mem::swap(&mut jobs, &mut self.jobs);
                jobs.insert(id, record);
                proof {
                    let after = jobs@.map_values(|record: JobModel| record@);
                    assert(after =~= before.insert(id, JobModelView::queued(job@, id, now)));
                    assert forall|k: i32| #[trigger] after.contains_key(k) implies 0 <= k
                        < self.id_space && after[k].job_id == k && after[k].wf() by {
                        if k != id {
                            assert(before.contains_key(k));
                        }
                    }
                }
                self.jobs = jobs;
                Ok(id)
            },
        }
    }

    /// Applies `change` to the record stored under `id`, as one
    /// read-modify-write, and hands back a copy of the record as it then
    /// stands. `Err(NotFound)` where no job is stored under `id`, else
    /// `Err(BadRequest)` where the change closes the job without a finish
    /// time; the registry is then unchanged.
    pub fn update(&mut self, id: i32, change: JobChange) -> (done: Result<
        JobModel,
        CoordinatorError,
    >)
        ensures
            done is Ok <==> change@.accepted() && old(self)@.contains_key(id),
            done matches Ok(record) ==> record@ == change@.apply(old(self)@[id]) && final(self)@
                == old(self)@.insert(id, record@),
            done matches Err(e) ==> final(self)@ == old(self)@ && e == (if !old(self)@.contains_key(
                id,
            ) {
                CoordinatorError::NotFound
            } else {
                CoordinatorError::BadRequest
            }),
            final(self).space() == old(self).space(),
            sound(final(self)@, final(self).space()),
    {
        broadcast use vstd::std_specs::hash::group_hash_axioms;

        proof {
            use_type_invariant(&*self);
        }
        let ghost before = self@;
        let ghost change_view = change@;
        let mut record = match self.jobs.get(&id) {
            Some(stored) => stored.clone(),
            None => {
                return Err(CoordinatorError::NotFound);
            },
        };
        let accepted = match &change {
            JobChange::Start => true,
            JobChange::Succeed { finished_at, .. } => *finished_at != 0,
            JobChange::Fail { finished_at, .. } => *finished_at != 0,
        };
        if !accepted {
            return Err(CoordinatorError::BadRequest);
        }
        match change {
            JobChange::Start => {
                if !record.state.terminal() {
                    record.state = JobState::Running;
                    record.finished_at = 0;
                }
            },
            JobChange::Succeed { output, finished_at } => {
                record.state = JobState::Succeeded;
                record.exec_output = output;
                record.finished_at = finished_at;
            },
            JobChange::Fail { output, finished_at } => {
                record.state = JobState::Failed;
                record.exec_output = output;
                record.finished_at = finished_at;
            },
        }
        proof {
            assert(before.contains_key(id));
            lemma_apply_keeps_wf(change_view, before[id]);
        }
        let copy = record.clone();
        let mut jobs: HashMap<i32, JobModel> = HashMap::new();
        std::mem::swap(&mut jobs, &mut self.jobs);
        jobs.insert(id, record);
        proof {
            let after = jobs@.map_values(|record: JobModel| record@);
            assert(after =~= before.insert(id, copy@));
            assert forall|k: i32| #[trigger] after.contains_key(k) implies 0 <= k < self.id_space
                && after[k].job_id == k && after[k].wf() by {
                if k != id {
                    assert(before.contains_key(k));
                }
            }
        }
        self.jobs = jobs;
        Ok(copy)
    }
}

/// An empty job registry.
pub fn blank_db() -> (registry: JobRegistry)
    ensures
        registry@ == Map::<i32, JobModelView>::empty(),
        registry.space() == DEFAULT_ID_SPACE,
{
    JobRegistry::new()
}

} // verus!
