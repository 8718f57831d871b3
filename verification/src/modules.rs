//! The records that the coordinator stores and exchanges, each with the
//! mathematical view that the contracts of the other modules speak of.

use vstd::prelude::*;

verus! {

/// Lifecycle of a job: `Queued`, then `Running`, then one of the two terminal
/// states.
#[derive(Clone, Copy, Debug, PartialEq, Eq, Structural)]
pub enum JobState {
    Queued,
    Running,
    Succeeded,
    Failed,
}

impl JobState {
    /// `Succeeded` and `Failed` are the terminal states: a job that is in
    /// one of them has a finish time, and no other job has.
    pub open spec fn is_terminal(self) -> bool {
        self == JobState::Succeeded || self == JobState::Failed
    }

    /// Whether the job has reached `Succeeded` or `Failed`.
    pub fn terminal(self) -> (t: bool)
        ensures
            t == self.is_terminal(),
    {
        match self {
            JobState::Succeeded | JobState::Failed => true,
            _ => false,
        }
    }
}

/// A time that is set: seconds since the epoch, never zero. In a record,
/// zero stands for a time that is not set, so the reading of a clock is
/// handed to the coordinator as a value of this type.
#[derive(Clone, Copy, Debug, PartialEq, Eq)]
pub struct Timestamp {
    secs: u64,
}

impl View for Timestamp {
    type V = u64;

    closed spec fn view(&self) -> u64 {
        self.secs
    }
}

impl Timestamp {
    #[verifier::type_invariant]
    spec fn inv(self) -> bool {
        self.secs != 0
    }

    /// The time `secs` seconds after the epoch; `None` exactly where `secs`
    /// is zero.
    pub fn new(secs: u64) -> (made: Option<Timestamp>)
        ensures
            made is Some <==> secs != 0,
            made matches Some(time) ==> time@ == secs,
    {
        if secs != 0 {
            Some(Timestamp { secs })
        } else {
            None
        }
    }

    /// The seconds since the epoch, which are not zero.
    pub fn secs(&self) -> (secs: u64)
        ensures
            secs == self@,
            secs != 0,
    {
        proof {
            use_type_invariant(&*self);
        }
        self.secs
    }
}

/// The request was served.
pub const STATUS_OK: u16 = 200;

/// The request lacks a field, or a field holds a value that is not allowed.
pub const STATUS_BAD_REQUEST: u16 = 400;

/// Nothing is stored under the id.
pub const STATUS_NOT_FOUND: u16 = 404;

/// A worker could not run the artifact to its end.
pub const STATUS_INTERNAL_SERVER_ERROR: u16 = 500;

/// No worker could be reached for the job.
pub const STATUS_SERVICE_UNAVAILABLE: u16 = 503;

/// What can go wrong with a request to the coordinator.
#[derive(Clone, Copy, Debug, PartialEq, Eq, Structural)]
pub enum CoordinatorError {
    /// The source did not compile.
    CompileError,
    /// Every worker is busy or offline.
    NoSuitableWorker,
    /// The selected worker did not answer in time.
    WorkerUnreachable,
    /// The artifact failed while it ran.
    SandboxRuntimeError,
    /// No job is stored under the id.
    NotFound,
    /// The request lacks a field, or a field holds a value that is not
    /// allowed.
    BadRequest,
    /// Every id of the registry's id space is taken.
    RegistryFull,
}

impl CoordinatorError {
    /// The status that answers a request on which this went wrong. A job
    /// that did not compile or failed while it ran was still served: its
    /// record says what happened.
    pub open spec fn status_code(self) -> u16 {
        match self {
            CoordinatorError::CompileError => STATUS_OK,
            CoordinatorError::NoSuitableWorker => STATUS_SERVICE_UNAVAILABLE,
            CoordinatorError::WorkerUnreachable => STATUS_SERVICE_UNAVAILABLE,
            CoordinatorError::SandboxRuntimeError => STATUS_OK,
            CoordinatorError::NotFound => STATUS_NOT_FOUND,
            CoordinatorError::BadRequest => STATUS_BAD_REQUEST,
            CoordinatorError::RegistryFull => STATUS_SERVICE_UNAVAILABLE,
        }
    }

    /// The status that answers a request on which this went wrong.
    pub fn status(self) -> (code: u16)
        ensures
            code == self.status_code(),
    {
        match self {
            CoordinatorError::CompileError => STATUS_OK,
            CoordinatorError::NoSuitableWorker => STATUS_SERVICE_UNAVAILABLE,
            CoordinatorError::WorkerUnreachable => STATUS_SERVICE_UNAVAILABLE,
            CoordinatorError::SandboxRuntimeError => STATUS_OK,
            CoordinatorError::NotFound => STATUS_NOT_FOUND,
            CoordinatorError::BadRequest => STATUS_BAD_REQUEST,
            CoordinatorError::RegistryFull => STATUS_SERVICE_UNAVAILABLE,
        }
    }
}

/// What a client submits: source text and the resources it asks for.
#[derive(Debug, PartialEq, Eq)]
pub struct Job {
    pub rust_src: String,
    pub cpus: i32,
    pub memory_mb: i32,
    pub job_name: String,
}

/// A submission as the contracts see it.
pub struct JobView {
    pub rust_src: Seq<char>,
    pub cpus: i32,
    pub memory_mb: i32,
    pub job_name: Seq<char>,
}

impl View for Job {
    type V = JobView;

    open spec fn view(&self) -> JobView {
        JobView {
            rust_src: self.rust_src@,
            cpus: self.cpus,
            memory_mb: self.memory_mb,
            job_name: self.job_name@,
        }
    }
}

impl JobView {
    /// A request is well formed when it asks for at least one cpu and at
    /// least one megabyte.
    pub open spec fn valid(self) -> bool {
        self.cpus > 0 && self.memory_mb > 0
    }
}

impl Job {
    /// Whether the request asks for a positive amount of cpu and of memory.
    pub fn is_valid(&self) -> (ok: bool)
        ensures
            ok == self@.valid(),
    {
        self.cpus > 0 && self.memory_mb > 0
    }
}

impl Clone for Job {
    fn clone(&self) -> (copy: Job)
        ensures
            copy == *self,
    {
        Job {
            rust_src: self.rust_src.clone(),
            cpus: self.cpus,
            memory_mb: self.memory_mb,
            job_name: self.job_name.clone(),
        }
    }
}

/// The coordinator's record of one job.
///
/// `finished_at` and `started_at` are seconds since the epoch; zero means
/// that the time has not been set.
#[derive(Debug, PartialEq, Eq)]
pub struct JobModel {
    pub job: Job,
    pub state: JobState,
    pub finished_at: u64,
    pub started_at: u64,
    pub job_id: i32,
    pub exec_output: String,
}

/// A job's record as the contracts see it.
pub struct JobModelView {
    pub job: JobView,
    pub state: JobState,
    pub finished_at: u64,
    pub started_at: u64,
    pub job_id: i32,
    pub exec_output: Seq<char>,
}

impl View for JobModel {
    type V = JobModelView;

    open spec fn view(&self) -> JobModelView {
        JobModelView {
            job: self.job@,
            state: self.state,
            finished_at: self.finished_at,
            started_at: self.started_at,
            job_id: self.job_id,
            exec_output: self.exec_output@,
        }
    }
}

impl JobModelView {
    /// The finish time is set exactly when the job is in a terminal state.
    pub open spec fn wf(self) -> bool {
        (self.finished_at != 0) <==> self.state.is_terminal()
    }

    /// The record of a job that has just been accepted.
    pub open spec fn queued(job: JobView, job_id: i32, now: u64) -> JobModelView {
        JobModelView {
            job,
            state: JobState::Queued,
            finished_at: 0,
            started_at: now,
            job_id,
            exec_output: Seq::empty(),
        }
    }

    /// This record once a worker has taken the job.
    pub open spec fn running(self) -> JobModelView {
        JobModelView { state: JobState::Running, finished_at: 0, ..self }
    }

    /// This record closed in the terminal state `state` with `output`.
    pub open spec fn finished(self, state: JobState, output: Seq<char>, now: u64) -> JobModelView {
        JobModelView { state, finished_at: now, exec_output: output, ..self }
    }
}

impl JobModel {
    /// The record of a job that has just been accepted: `Queued`, no output,
    /// no finish time.
    pub fn new(job: Job, job_id: i32, now: u64) -> (record: JobModel)
        ensures
            record@ == JobModelView::queued(job@, job_id, now),
            record@.wf(),
    {
        JobModel {
            job,
            state: JobState::Queued,
            finished_at: 0,
            started_at: now,
            job_id,
            exec_output: String::new(),
        }
    }

    /// Whether the job has reached a terminal state.
    pub fn finished(&self) -> (done: bool)
        ensures
            done == self@.state.is_terminal(),
    {
        self.state.terminal()
    }
}

impl Clone for JobModel {
    fn clone(&self) -> (copy: JobModel)
        ensures
            copy == *self,
    {
        JobModel {
            job: self.job.clone(),
            state: self.state,
            finished_at: self.finished_at,
            started_at: self.started_at,
            job_id: self.job_id,
            exec_output: self.exec_output.clone(),
        }
    }
}

/// The query of a status request.
#[derive(Clone, Copy, Debug, PartialEq, Eq, Structural)]
pub struct JobOptions {
    pub id: Option<i32>,
}

/// A completion report that a worker sends on its own.
#[derive(Debug, PartialEq, Eq)]
pub struct JobUpdate {
    pub job_id: i32,
    pub exec_output: String,
    pub finished_at: u64,
}

/// The answer to a submission.
#[derive(Clone, Copy, Debug, PartialEq, Eq, Structural)]
pub struct CreateJobResponse {
    pub id: i32,
}

/// The body of an error reply.
#[derive(Debug, PartialEq, Eq)]
pub struct ErrorResponse {
    message: String,
}

impl View for ErrorResponse {
    type V = Seq<char>;

    closed spec fn view(&self) -> Seq<char> {
        self.message@
    }
}

impl ErrorResponse {
    /// An error body that carries `message`.
    pub fn new(message: String) -> (response: ErrorResponse)
        ensures
            response@ == message@,
    {
        ErrorResponse { message }
    }

    /// The message that the body carries.
    pub fn message(&self) -> (text: &String)
        ensures
            text@ == self@,
    {
        &self.message
    }
}

/// A member of the worker pool.
#[derive(Debug, PartialEq, Eq)]
pub struct Worker {
    pub ip_addr: String,
    pub port: i32,
    pub num_cpu: i32,
    pub memory_capacity_mb: i32,
    pub is_busy: bool,
    pub offline: bool,
}

/// A worker's record as the contracts see it.
pub struct WorkerView {
    pub ip_addr: Seq<char>,
    pub port: i32,
    pub num_cpu: i32,
    pub memory_capacity_mb: i32,
    pub is_busy: bool,
    pub offline: bool,
}

impl View for Worker {
    type V = WorkerView;

    open spec fn view(&self) -> WorkerView {
        WorkerView {
            ip_addr: self.ip_addr@,
            port: self.port,
            num_cpu: self.num_cpu,
            memory_capacity_mb: self.memory_capacity_mb,
            is_busy: self.is_busy,
            offline: self.offline,
        }
    }
}

impl WorkerView {
    /// A worker can take a job when it is neither busy nor offline.
    pub open spec fn eligible(self) -> bool {
        !self.is_busy && !self.offline
    }
}

impl Worker {
    /// Whether the worker is neither busy nor offline.
    pub fn is_eligible(&self) -> (ok: bool)
        ensures
            ok == self@.eligible(),
    {
        !self.is_busy && !self.offline
    }
}

impl Clone for Worker {
    fn clone(&self) -> (copy: Worker)
        ensures
            copy == *self,
    {
        Worker {
            ip_addr: self.ip_addr.clone(),
            port: self.port,
            num_cpu: self.num_cpu,
            memory_capacity_mb: self.memory_capacity_mb,
            is_busy: self.is_busy,
            offline: self.offline,
        }
    }
}

/// What the coordinator sends to a worker: the compiled artifact and the
/// name of the job.
#[derive(Debug, PartialEq, Eq)]
pub struct WasmPayload {
    pub payload: Vec<u8>,
    pub job_name: String,
}

/// What a worker answers: the captured output, or the diagnostic text of a
/// failed run.
#[derive(Debug, PartialEq, Eq)]
pub struct WasmRunResult {
    pub output: String,
}

} // verus!
