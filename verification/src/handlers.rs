//! What the coordinator answers to each request, and what the request does
//! to the registries.

use vstd::prelude::*;
use vstd::string::StringExecFns;
use crate::dispatch::Reply;
use crate::jobs::{free, full, sound, JobChange, JobRegistry};
use crate::modules::{
    CoordinatorError,
    Job,
    JobModel,
    JobModelView,
    JobOptions,
    JobState,
    JobUpdate,
    Worker,
    WorkerView,
    STATUS_BAD_REQUEST,
    STATUS_NOT_FOUND,
    STATUS_OK,
    STATUS_SERVICE_UNAVAILABLE,
};
use crate::workers::{distinct_addresses, upsert, WorkerRegistry};

verus! {

/// The source to compile for a job that has been accepted.
#[derive(Debug, PartialEq, Eq)]
pub struct CompileRequest {
    pub job_id: i32,
    pub rust_src: String,
    pub job_name: String,
}

/// What became of a submission.
#[derive(Debug, PartialEq, Eq)]
pub enum Submission {
    /// The job is stored as `Queued`; compile its source, then report the
    /// outcome with `job_compiled`.
    Accepted(CompileRequest),
    /// Nothing was stored: answer the client.
    Rejected(Reply),
}

/// The answer to a status query: a status and, where the job is known, a
/// copy of its record.
#[derive(Debug, PartialEq, Eq)]
pub struct StatusReply {
    pub status: u16,
    pub body: Option<JobModel>,
}

/// The address under which a worker is stored when the transport cannot
/// tell where its registration came from. All such workers share one slot.
pub open spec fn fallback_address() -> Seq<char> {
    "127.0.0.1"@
}

/// The record that a registration stores: the worker as it describes itself,
/// under the address that the transport observed, not the one it claims.
pub open spec fn registered(worker: WorkerView, observed: Option<Seq<char>>) -> WorkerView {
    WorkerView {
        ip_addr: match observed {
            Some(addr) => addr,
            None => fallback_address(),
        },
        ..worker
    }
}

/// The status that answers a status query.
pub open spec fn status_of_query(jobs: Map<i32, JobModelView>, opts: JobOptions) -> u16 {
    match opts.id {
        None => STATUS_BAD_REQUEST,
        Some(id) => if id < 0 {
            STATUS_BAD_REQUEST
        } else if !jobs.contains_key(id) {
            STATUS_NOT_FOUND
        } else {
            STATUS_OK
        },
    }
}

/// The status that answers a completion report for job `id`: not found
/// where the id is unknown, whatever the report holds.
pub open spec fn status_of_update(jobs: Map<i32, JobModelView>, id: i32, finished_at: u64) -> u16 {
    if !jobs.contains_key(id) {
        STATUS_NOT_FOUND
    } else if finished_at == 0 {
        STATUS_BAD_REQUEST
    } else {
        STATUS_OK
    }
}

/// Handles a submission at time `now`.
///
/// A request that asks for no cpu or no memory is rejected as a bad
/// request. Otherwise a fresh id is reserved and a `Queued` record stored
/// under it, in one step, unless every id is taken, which is answered as
/// service unavailable.
pub fn create_job(job: Job, db: &mut JobRegistry, now: u64) -> (submission: Submission)
    ensures
        submission is Accepted <==> job@.valid() && !full(old(db)@, old(db).space()),
        submission matches Submission::Accepted(request) ==> {
            &&& free(old(db)@, old(db).space(), request.job_id)
            &&& final(db)@ == old(db)@.insert(
                request.job_id,
                JobModelView::queued(job@, request.job_id, now),
            )
            &&& request.rust_src@ == job@.rust_src
            &&& request.job_name@ == job@.job_name
        },
        submission matches Submission::Rejected(reply) ==> {
            &&& final(db)@ == old(db)@
            &&& reply.body is None
            &&& reply.status == (if !job@.valid() {
                STATUS_BAD_REQUEST
            } else {
                STATUS_SERVICE_UNAVAILABLE
            })
        },
        final(db).space() == old(db).space(),
        sound(old(db)@, old(db).space()) ==> sound(final(db)@, final(db).space()),
{
    if !job.is_valid() {
        return Submission::Rejected(
            Reply { status: CoordinatorError::BadRequest.status(), body: None },
        );
    }
    let rust_src = job.rust_src.clone();
    let job_name = job.job_name.clone();
    match db.create_job(job, now) {
        Ok(job_id) => Submission::Accepted(CompileRequest { job_id, rust_src, job_name }),
        Err(e) => Submission::Rejected(Reply { status: e.status(), body: None }),
    }
}

/// Answers a status query: bad request where the id is absent or negative,
/// not found where no job is stored under it, else the record as it stands.
pub fn status_job(opts: JobOptions, db: &JobRegistry) -> (reply: StatusReply)
    ensures
        reply.status == status_of_query(db@, opts),
        reply.body is Some <==> reply.status == STATUS_OK,
        reply.body matches Some(record) ==> record@ == db@[opts.id.unwrap()],
{
    let id = match opts.id {
        Some(id) => id,
        None => -1,
    };
    if id < 0 {
        return StatusReply { status: STATUS_BAD_REQUEST, body: None };
    }
    match db.get(id) {
        Some(record) => StatusReply { status: STATUS_OK, body: Some(record) },
        None => StatusReply { status: STATUS_NOT_FOUND, body: None },
    }
}

/// Handles a completion report that a worker sends on its own for job `id`:
/// the job ends `Succeeded` with the output and the finish time that the
/// worker names. An id that is unknown is answered as not found; for a
/// known id, a finish time that is unset makes a bad request. Neither
/// changes anything. The id in the body is not read.
pub fn job_update(id: i32, update: JobUpdate, db: &mut JobRegistry) -> (status: u16)
    ensures
        status == status_of_update(old(db)@, id, update.finished_at),
        status == STATUS_OK ==> final(db)@ == old(db)@.insert(
            id,
            old(db)@[id].finished(JobState::Succeeded, update.exec_output@, update.finished_at),
        ),
        status != STATUS_OK ==> final(db)@ == old(db)@,
        final(db).space() == old(db).space(),
        sound(final(db)@, final(db).space()),
{
    let change = JobChange::Succeed {
        output: update.exec_output,
        finished_at: update.finished_at,
    };
    match db.update(id, change) {
        Ok(_) => STATUS_OK,
        Err(e) => e.status(),
    }
}

/// Registers `worker` under the address `observed` by the transport, or
/// under the loopback address where the transport observed none. The
/// address that the worker claims in `ip_addr` is overwritten. The record
/// stored before under that address is replaced.
pub fn register_worker(worker: Worker, index: &mut WorkerRegistry, observed: Option<String>) -> (status:
    u16)
    ensures
        status == STATUS_OK,
        final(index)@ == upsert(
            old(index)@,
            registered(
                worker@,
                match observed {
                    Some(addr) => Some(addr@),
                    None => None,
                },
            ),
        ),
        distinct_addresses(final(index)@),
{
    let ip_addr = match observed {
        Some(addr) => addr,
        None => String::from_str("127.0.0.1"),
    };
    let to_insert = Worker {
        ip_addr,
        port: worker.port,
        num_cpu: worker.num_cpu,
        memory_capacity_mb: worker.memory_capacity_mb,
        is_busy: worker.is_busy,
        offline: worker.offline,
    };
    index.register(to_insert);
    STATUS_OK
}

} // verus!
