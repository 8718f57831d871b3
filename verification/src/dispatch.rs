//! The dispatch protocol. A submission is carried from `Queued` to a
//! terminal state in short steps, each of which reads and writes the two
//! registries and then names the outside work to do next: compile the
//! source, or call the selected worker. The caller does that work with no
//! registry in hand and comes back with its outcome.

use vstd::prelude::*;
use vstd::string::StringExecFns;
use crate::jobs::{sound, JobChange, JobChangeView, JobRegistry};
use crate::modules::{
    CoordinatorError,
    CreateJobResponse,
    Job,
    JobModelView,
    JobState,
    JobView,
    Timestamp,
    WasmPayload,
    WasmRunResult,
    Worker,
    WorkerView,
    STATUS_OK,
};
use crate::selector::{lemma_selection_eligible, select_worker, selected, selected_address, selects};
use crate::text::{decimal, push_decimal};
use crate::workers::{
    distinct_addresses,
    index_of,
    known,
    lemma_flags_keep_addresses,
    lemma_index_of_unique,
    with_busy,
    with_offline,
    WorkerRegistry,
};

verus! {

/// How long the coordinator waits for a worker's answer, in seconds. A
/// worker that has not answered by then counts as unreachable.
pub const WORKER_TIMEOUT_SECS: u64 = 30;

/// What the compiler made of a job's source.
#[derive(Debug, PartialEq, Eq)]
pub enum CompileOutcome {
    /// The compiled artifact.
    Artifact(Vec<u8>),
    /// The compiler's error text.
    Failed(String),
}

/// A compiler's outcome as the contracts see it.
pub enum CompileOutcomeView {
    Artifact(Seq<u8>),
    Failed(Seq<char>),
}

impl View for CompileOutcome {
    type V = CompileOutcomeView;

    open spec fn view(&self) -> CompileOutcomeView {
        match self {
            CompileOutcome::Artifact(bytes) => CompileOutcomeView::Artifact(bytes@),
            CompileOutcome::Failed(text) => CompileOutcomeView::Failed(text@),
        }
    }
}

/// What came of the call to a worker.
#[derive(Debug, PartialEq, Eq)]
pub enum WorkerOutcome {
    /// The worker did not answer in time, or could not be reached at all.
    Unreachable,
    /// The worker answered that the run failed, with this detail.
    Failed(String),
    /// The worker ran the artifact and captured this output.
    Succeeded(String),
}

/// The outcome of a call to a worker as the contracts see it.
pub enum WorkerOutcomeView {
    Unreachable,
    Failed(Seq<char>),
    Succeeded(Seq<char>),
}

impl View for WorkerOutcome {
    type V = WorkerOutcomeView;

    open spec fn view(&self) -> WorkerOutcomeView {
        match self {
            WorkerOutcome::Unreachable => WorkerOutcomeView::Unreachable,
            WorkerOutcome::Failed(detail) => WorkerOutcomeView::Failed(detail@),
            WorkerOutcome::Succeeded(output) => WorkerOutcomeView::Succeeded(output@),
        }
    }
}

/// The answer to a submission: a status and, where an id was given out, the
/// id.
#[derive(Clone, Copy, Debug, PartialEq, Eq, Structural)]
pub struct Reply {
    pub status: u16,
    pub body: Option<CreateJobResponse>,
}

/// A call to make to a worker's execution endpoint.
#[derive(Debug, PartialEq, Eq)]
pub struct WorkerCall {
    pub job_id: i32,
    /// The address under which the worker is registered.
    pub worker: String,
    pub endpoint: String,
    pub request: WasmPayload,
}

/// What to do after a step of the protocol.
#[derive(Debug, PartialEq, Eq)]
pub enum Step {
    /// Call the worker, then report the outcome with `job_executed`.
    Call(WorkerCall),
    /// The job is in a terminal state: answer the client.
    Done(Reply),
}

/// The output of a job that failed because every worker was busy or offline.
pub open spec fn no_worker_reason() -> Seq<char> {
    "no suitable worker: every worker is busy or offline"@
}

/// The output of a job that failed because its worker did not answer.
pub open spec fn unreachable_reason() -> Seq<char> {
    "service unavailable: the worker did not answer"@
}

/// The address of a worker's execution endpoint.
pub open spec fn endpoint_of(worker: WorkerView) -> Seq<char> {
    "http://"@ + worker.ip_addr + ":"@ + decimal(worker.port as int) + "/accept_job"@
}

/// The status that answers the client after a step that went wrong as
/// `failure` says, or went well.
pub open spec fn reply_status(failure: Option<CoordinatorError>) -> u16 {
    match failure {
        Some(e) => e.status_code(),
        None => STATUS_OK,
    }
}

/// What goes wrong when the compiler's outcome for job `id` arrives, if
/// anything does.
pub open spec fn compile_failure(
    jobs: Map<i32, JobModelView>,
    workers: Seq<WorkerView>,
    id: i32,
    outcome: CompileOutcomeView,
) -> Option<CoordinatorError> {
    if !jobs.contains_key(id) {
        Some(CoordinatorError::NotFound)
    } else {
        match outcome {
            CompileOutcomeView::Failed(_) => Some(CoordinatorError::CompileError),
            CompileOutcomeView::Artifact(_) => if selected(
                jobs[id].job.cpus,
                jobs[id].job.memory_mb,
                workers,
            ) is None {
                Some(CoordinatorError::NoSuitableWorker)
            } else {
                None
            },
        }
    }
}

/// The place in the pool of the worker that job `id` goes to, where the job
/// is known, compiled, and a worker can take it.
pub open spec fn target(
    jobs: Map<i32, JobModelView>,
    workers: Seq<WorkerView>,
    id: i32,
    outcome: CompileOutcomeView,
) -> Option<int> {
    if compile_failure(jobs, workers, id, outcome) is None {
        selected(jobs[id].job.cpus, jobs[id].job.memory_mb, workers)
    } else {
        None
    }
}

/// The jobs after the compiler's outcome for job `id` has been handled at
/// time `now`: a job that did not compile fails with the compiler's text, a
/// job that no worker can take fails with `no_worker_reason`, any other job
/// starts. Nothing changes where the id is unknown.
pub open spec fn jobs_after_compile(
    jobs: Map<i32, JobModelView>,
    workers: Seq<WorkerView>,
    id: i32,
    outcome: CompileOutcomeView,
    now: u64,
) -> Map<i32, JobModelView> {
    match compile_failure(jobs, workers, id, outcome) {
        Some(CoordinatorError::NotFound) => jobs,
        Some(CoordinatorError::CompileError) => jobs.insert(
            id,
            jobs[id].finished(JobState::Failed, outcome->Failed_0, now),
        ),
        Some(_) => jobs.insert(id, jobs[id].finished(JobState::Failed, no_worker_reason(), now)),
        None => jobs.insert(id, JobChangeView::Start.apply(jobs[id])),
    }
}

/// The pool after the compiler's outcome for job `id` has been handled: the
/// worker that the job goes to is busy, and nothing else has changed.
pub open spec fn workers_after_compile(
    jobs: Map<i32, JobModelView>,
    workers: Seq<WorkerView>,
    id: i32,
    outcome: CompileOutcomeView,
) -> Seq<WorkerView> {
    match target(jobs, workers, id, outcome) {
        Some(i) => with_busy(workers, workers[i].ip_addr, true),
        None => workers,
    }
}

/// What goes wrong when the worker's outcome for job `id` arrives, if
/// anything does.
pub open spec fn execute_failure(jobs: Map<i32, JobModelView>, id: i32, outcome: WorkerOutcomeView) -> Option<
    CoordinatorError,
> {
    if !jobs.contains_key(id) {
        Some(CoordinatorError::NotFound)
    } else {
        match outcome {
            WorkerOutcomeView::Unreachable => Some(CoordinatorError::WorkerUnreachable),
            WorkerOutcomeView::Failed(_) => Some(CoordinatorError::SandboxRuntimeError),
            WorkerOutcomeView::Succeeded(_) => None,
        }
    }
}

/// The jobs after the worker's outcome for job `id` has been handled at time
/// `now`: the job succeeds with the captured output, or fails with the
/// worker's detail, or with `unreachable_reason` where the worker did not
/// answer. Nothing changes where the id is unknown.
pub open spec fn jobs_after_execute(
    jobs: Map<i32, JobModelView>,
    id: i32,
    outcome: WorkerOutcomeView,
    now: u64,
) -> Map<i32, JobModelView> {
    if !jobs.contains_key(id) {
        jobs
    } else {
        match outcome {
            WorkerOutcomeView::Unreachable => jobs.insert(
                id,
                jobs[id].finished(JobState::Failed, unreachable_reason(), now),
            ),
            WorkerOutcomeView::Failed(detail) => jobs.insert(
                id,
                jobs[id].finished(JobState::Failed, detail, now),
            ),
            WorkerOutcomeView::Succeeded(output) => jobs.insert(
                id,
                jobs[id].finished(JobState::Succeeded, output, now),
            ),
        }
    }
}

/// The pool after the outcome of the call to the worker at `addr` has been
/// handled: a worker that did not answer is offline, and stays out of
/// selection until it registers again; a worker that answered is free again.
pub open spec fn workers_after_execute(
    workers: Seq<WorkerView>,
    addr: Seq<char>,
    outcome: WorkerOutcomeView,
) -> Seq<WorkerView> {
    match outcome {
        WorkerOutcomeView::Unreachable => with_offline(workers, addr, true),
        _ => with_busy(workers, addr, false),
    }
}

/// Every submission that is accepted reaches a terminal state, and no more
/// than one: `Failed` as soon as the source does not compile or no worker
/// can take the job, else `Running` until the worker's outcome arrives, then
/// `Succeeded` where the worker ran the job to its end and `Failed` where it
/// did not. At each point the finish time of every job is set exactly when
/// the job is terminal.
pub proof fn lemma_submission_ends(
    jobs: Map<i32, JobModelView>,
    space: int,
    workers: Seq<WorkerView>,
    job: JobView,
    id: i32,
    submitted_at: u64,
    compile: CompileOutcomeView,
    compiled_at: u64,
    run: WorkerOutcomeView,
    run_at: u64,
)
    requires
        sound(jobs, space),
        0 <= id < space,
        !jobs.contains_key(id),
        compiled_at != 0,
        run_at != 0,
    ensures
        ({
            let queued = jobs.insert(id, JobModelView::queued(job, id, submitted_at));
            let compiled = jobs_after_compile(queued, workers, id, compile, compiled_at);
            let ended = jobs_after_execute(compiled, id, run, run_at);
            &&& queued[id].state == JobState::Queued
            &&& sound(queued, space)
            &&& sound(compiled, space)
            &&& sound(ended, space)
            &&& target(queued, workers, id, compile) is None ==> compiled[id].state
                == JobState::Failed
            &&& target(queued, workers, id, compile) is Some ==> compiled[id].state
                == JobState::Running
            &&& ended[id].state.is_terminal()
            &&& target(queued, workers, id, compile) is Some ==> (ended[id].state
                == JobState::Succeeded <==> run is Succeeded)
        }),
{
    let queued = jobs.insert(id, JobModelView::queued(job, id, submitted_at));
    let compiled = jobs_after_compile(queued, workers, id, compile, compiled_at);
    let ended = jobs_after_execute(compiled, id, run, run_at);
    assert(queued.contains_key(id));
    assert forall|k: i32| #[trigger] queued.contains_key(k) implies 0 <= k < space && queued[k].job_id
        == k && queued[k].wf() by {
        if k != id {
            assert(jobs.contains_key(k));
        }
    }
    assert(compiled.contains_key(id));
    assert forall|k: i32| #[trigger] compiled.contains_key(k) implies 0 <= k < space
        && compiled[k].job_id == k && compiled[k].wf() by {
        assert(queued.contains_key(k));
    }
    assert(ended.contains_key(id));
    assert forall|k: i32| #[trigger] ended.contains_key(k) implies 0 <= k < space && ended[k].job_id
        == k && ended[k].wf() by {
        assert(compiled.contains_key(k));
    }
}

/// A job whose worker did not answer ends `Failed`, and that worker is
/// offline: whatever is asked for, selection from the pool as it then
/// stands does not name it.
pub proof fn lemma_unreachable_worker_excluded(
    jobs: Map<i32, JobModelView>,
    workers: Seq<WorkerView>,
    id: i32,
    addr: Seq<char>,
    now: u64,
    cpus: i32,
    memory: i32,
)
    requires
        distinct_addresses(workers),
        jobs.contains_key(id),
    ensures
        jobs_after_execute(jobs, id, WorkerOutcomeView::Unreachable, now)[id].state
            == JobState::Failed,
        selected_address(
            cpus,
            memory,
            workers_after_execute(workers, addr, WorkerOutcomeView::Unreachable),
        ) != Some(addr),
        known(workers, addr) ==> workers_after_execute(
            workers,
            addr,
            WorkerOutcomeView::Unreachable,
        )[index_of(workers, addr)].offline,
        workers.len() == 1 && workers[0].ip_addr == addr ==> selected_address(
            cpus,
            memory,
            workers_after_execute(workers, addr, WorkerOutcomeView::Unreachable),
        ) is None,
{
    let after = workers_after_execute(workers, addr, WorkerOutcomeView::Unreachable);
    lemma_flags_keep_addresses(workers, addr, true);
    lemma_selection_eligible(cpus, memory, after);
    if let Some(i) = selected(cpus, memory, after) {
        assert(selects(cpus, memory, after, i));
        if after[i].ip_addr == addr {
            assert(workers[i].ip_addr == addr);
            lemma_index_of_unique(workers, addr, i);
            assert(after[i].offline);
        }
    }
}

/// A worker that did not answer is not removed from the pool, and no other
/// worker is touched: the pool keeps its size, every address stays in its
/// place, the record under `addr` differs from what it was in its `offline`
/// flag alone, and every other record is what it was.
pub proof fn lemma_unreachable_changes_one_record(workers: Seq<WorkerView>, addr: Seq<char>)
    requires
        distinct_addresses(workers),
    ensures
        ({
            let after = workers_after_execute(workers, addr, WorkerOutcomeView::Unreachable);
            &&& after.len() == workers.len()
            &&& distinct_addresses(after)
            &&& forall|i: int|
                0 <= i < workers.len() ==> (#[trigger] after[i]) == (if workers[i].ip_addr == addr {
                    WorkerView { offline: true, ..workers[i] }
                } else {
                    workers[i]
                })
        }),
{
    let after = workers_after_execute(workers, addr, WorkerOutcomeView::Unreachable);
    lemma_flags_keep_addresses(workers, addr, true);
    assert forall|i: int| 0 <= i < workers.len() implies (#[trigger] after[i]) == (if workers[i].ip_addr
        == addr {
        WorkerView { offline: true, ..workers[i] }
    } else {
        workers[i]
    }) by {
        if workers[i].ip_addr == addr {
            lemma_index_of_unique(workers, addr, i);
        } else if known(workers, addr) {
            assert(index_of(workers, addr) != i);
        }
    }
}

/// The call that asks `worker` to run the compiled `artifact` of `job`.
pub fn worker_request_job(job_id: i32, job: &Job, worker: &Worker, artifact: Vec<u8>) -> (call:
    WorkerCall)
    ensures
        call.job_id == job_id,
        call.worker@ == worker@.ip_addr,
        call.endpoint@ == endpoint_of(worker@),
        call.request.payload@ == artifact@,
        call.request.job_name@ == job@.job_name,
{
    let mut endpoint = String::from_str("http://");
    endpoint.append(worker.ip_addr.as_str());
    endpoint.append(":");
    push_decimal(&mut endpoint, worker.port);
    endpoint.append("/accept_job");
    WorkerCall {
        job_id,
        worker: worker.ip_addr.clone(),
        endpoint,
        request: WasmPayload { payload: artifact, job_name: job.job_name.clone() },
    }
}

/// Reads a worker's answer: status `STATUS_OK` carries the captured output,
/// any other status the detail of a failed run.
pub fn worker_outcome(status: u16, body: WasmRunResult) -> (outcome: WorkerOutcome)
    ensures
        outcome@ == (if status == STATUS_OK {
            WorkerOutcomeView::Succeeded(body.output@)
        } else {
            WorkerOutcomeView::Failed(body.output@)
        }),
{
    if status == STATUS_OK {
        WorkerOutcome::Succeeded(body.output)
    } else {
        WorkerOutcome::Failed(body.output)
    }
}

/// Reads what came back from the call to a worker. An answer whose body
/// could be read is taken by its status, as `worker_outcome` says. An answer
/// without a body that can be read tells nothing of the run: the worker
/// counts as unreachable, as it does where no answer came at all.
pub fn worker_answer(status: u16, body: Option<WasmRunResult>) -> (outcome: WorkerOutcome)
    ensures
        outcome@ == (match body {
            Some(b) => if status == STATUS_OK {
                WorkerOutcomeView::Succeeded(b.output@)
            } else {
                WorkerOutcomeView::Failed(b.output@)
            },
            None => WorkerOutcomeView::Unreachable,
        }),
{
    match body {
        Some(b) => worker_outcome(status, b),
        None => WorkerOutcome::Unreachable,
    }
}

/// Handles the compiler's outcome for job `id` at time `now`.
///
/// A job that did not compile ends `Failed` with the compiler's text, and no
/// worker is contacted. Otherwise a worker is selected from a snapshot of
/// the pool. Where none can take the job, the job ends `Failed`. Where one
/// can, it is marked busy, the job is `Running`, and the step names the call
/// to make.
pub fn job_compiled(
    id: i32,
    outcome: CompileOutcome,
    db: &mut JobRegistry,
    workers: &mut WorkerRegistry,
    now: Timestamp,
) -> (step: Step)
    ensures
        final(db)@ == jobs_after_compile(old(db)@, old(workers)@, id, outcome@, now@),
        final(workers)@ == workers_after_compile(old(db)@, old(workers)@, id, outcome@),
        final(db).space() == old(db).space(),
        sound(final(db)@, final(db).space()),
        distinct_addresses(old(workers)@) ==> distinct_addresses(final(workers)@),
        step is Call <==> target(old(db)@, old(workers)@, id, outcome@) is Some,
        step matches Step::Done(reply) ==> reply.body == Some(CreateJobResponse { id })
            && reply.status == reply_status(
            compile_failure(old(db)@, old(workers)@, id, outcome@),
        ),
        step matches Step::Call(call) ==> {
            let worker = old(workers)@[target(old(db)@, old(workers)@, id, outcome@).unwrap()];
            &&& call.job_id == id
            &&& call.worker@ == worker.ip_addr
            &&& call.endpoint@ == endpoint_of(worker)
            &&& call.request.payload@ == outcome@->Artifact_0
            &&& call.request.job_name@ == old(db)@[id].job.job_name
        },
{
    let body = Some(CreateJobResponse { id });
    let finished_at = now.secs();
    let record = match db.get(id) {
        Some(record) => record,
        None => {
            return Step::Done(Reply { status: CoordinatorError::NotFound.status(), body });
        },
    };
    match outcome {
        CompileOutcome::Failed(text) => {
            let _ = db.update(id, JobChange::Fail { output: text, finished_at });
            Step::Done(Reply { status: CoordinatorError::CompileError.status(), body })
        },
        CompileOutcome::Artifact(artifact) => {
            let snapshot = workers.snapshot();
            match select_worker(record.job.cpus, record.job.memory_mb, &snapshot) {
                None => {
                    let reason = String::from_str(
                        "no suitable worker: every worker is busy or offline",
                    );
                    let _ = db.update(id, JobChange::Fail { output: reason, finished_at });
                    Step::Done(Reply { status: CoordinatorError::NoSuitableWorker.status(), body })
                },
                Some(i) => {
                    let worker = &snapshot[i];
                    let _ = workers.set_busy(&worker.ip_addr, true);
                    let _ = db.update(id, JobChange::Start);
                    Step::Call(worker_request_job(id, &record.job, worker, artifact))
                },
            }
        },
    }
}

/// Handles the outcome of the call to the worker at `worker` for job `id`,
/// at time `now`.
///
/// The job ends `Succeeded` with the captured output, or `Failed` with the
/// worker's detail, and the worker is free again. A worker that did not
/// answer is marked offline instead, and the job ends `Failed`.
pub fn job_executed(
    id: i32,
    worker: &String,
    outcome: WorkerOutcome,
    db: &mut JobRegistry,
    workers: &mut WorkerRegistry,
    now: Timestamp,
) -> (reply: Reply)
    ensures
        final(db)@ == jobs_after_execute(old(db)@, id, outcome@, now@),
        final(workers)@ == workers_after_execute(old(workers)@, worker@, outcome@),
        final(db).space() == old(db).space(),
        sound(final(db)@, final(db).space()),
        distinct_addresses(final(workers)@),
        reply.body == Some(CreateJobResponse { id }),
        reply.status == reply_status(execute_failure(old(db)@, id, outcome@)),
{
    let body = Some(CreateJobResponse { id });
    let known_job = db.contains(id);
    let finished_at = now.secs();
    let failure = match outcome {
        WorkerOutcome::Unreachable => {
            let _ = workers.set_offline(worker, true);
            let reason = String::from_str("service unavailable: the worker did not answer");
            let _ = db.update(id, JobChange::Fail { output: reason, finished_at });
            Some(CoordinatorError::WorkerUnreachable)
        },
        WorkerOutcome::Failed(detail) => {
            let _ = workers.set_busy(worker, false);
            let _ = db.update(id, JobChange::Fail { output: detail, finished_at });
            Some(CoordinatorError::SandboxRuntimeError)
        },
        WorkerOutcome::Succeeded(output) => {
            let _ = workers.set_busy(worker, false);
            let _ = db.update(id, JobChange::Succeed { output, finished_at });
            None
        },
    };
    let status = if !known_job {
        CoordinatorError::NotFound.status()
    } else {
        match failure {
            Some(e) => e.status(),
            None => STATUS_OK,
        }
    };
    Reply { status, body }
}

} // verus!
