use distributed_wasm_runtime::dispatch::Reply;
use distributed_wasm_runtime::handlers::{
    create_job, job_update, register_worker, status_job, CompileRequest, StatusReply, Submission,
};
use distributed_wasm_runtime::jobs::{blank_db, JobRegistry};
use distributed_wasm_runtime::modules::{
    CoordinatorError, ErrorResponse, Job, JobModel, JobOptions, JobState, JobUpdate, Worker,
    STATUS_BAD_REQUEST, STATUS_INTERNAL_SERVER_ERROR, STATUS_NOT_FOUND, STATUS_OK,
    STATUS_SERVICE_UNAVAILABLE,
};
use distributed_wasm_runtime::workers::blank_worker_index;

fn job(cpus: i32, memory_mb: i32) -> Job {
    Job { rust_src: "print 1".to_string(), cpus, memory_mb, job_name: "t1".to_string() }
}

fn worker(addr: &str, cpu: i32, mem: i32) -> Worker {
    Worker {
        ip_addr: addr.to_string(),
        port: 3031,
        num_cpu: cpu,
        memory_capacity_mb: mem,
        is_busy: false,
        offline: false,
    }
}

#[test]
fn status_codes_have_their_http_values() {
    assert_eq!(STATUS_OK, 200);
    assert_eq!(STATUS_BAD_REQUEST, 400);
    assert_eq!(STATUS_NOT_FOUND, 404);
    assert_eq!(STATUS_INTERNAL_SERVER_ERROR, 500);
    assert_eq!(STATUS_SERVICE_UNAVAILABLE, 503);
}

#[test]
fn each_error_has_its_status() {
    assert_eq!(CoordinatorError::CompileError.status(), 200);
    assert_eq!(CoordinatorError::SandboxRuntimeError.status(), 200);
    assert_eq!(CoordinatorError::NoSuitableWorker.status(), 503);
    assert_eq!(CoordinatorError::WorkerUnreachable.status(), 503);
    assert_eq!(CoordinatorError::RegistryFull.status(), 503);
    assert_eq!(CoordinatorError::NotFound.status(), 404);
    assert_eq!(CoordinatorError::BadRequest.status(), 400);
}

#[test]
fn valid_submission_is_accepted_and_queued() {
    let mut db = blank_db();
    let submission = create_job(job(1, 1000), &mut db, 11);
    let request = match submission {
        Submission::Accepted(request) => request,
        Submission::Rejected(reply) => panic!("rejected: {:?}", reply),
    };
    assert_eq!(
        request,
        CompileRequest {
            job_id: request.job_id,
            rust_src: "print 1".to_string(),
            job_name: "t1".to_string()
        }
    );
    assert_eq!(
        db.get(request.job_id),
        Some(JobModel {
            job: job(1, 1000),
            state: JobState::Queued,
            finished_at: 0,
            started_at: 11,
            job_id: request.job_id,
            exec_output: String::new(),
        })
    );
}

#[test]
fn submission_without_cpu_or_memory_is_bad_request() {
    let mut db = blank_db();
    for (cpus, mem) in [(0, 1000), (-1, 1000), (1, 0), (1, -5), (0, 0)] {
        assert_eq!(
            create_job(job(cpus, mem), &mut db, 1),
            Submission::Rejected(Reply { status: 400, body: None })
        );
    }
    assert_eq!(db.len(), 0);
}

#[test]
fn submission_to_full_registry_is_service_unavailable() {
    let mut db = JobRegistry::with_id_space(1).unwrap();
    assert!(matches!(create_job(job(1, 1), &mut db, 1), Submission::Accepted(_)));
    assert_eq!(
        create_job(job(1, 1), &mut db, 1),
        Submission::Rejected(Reply { status: 503, body: None })
    );
    assert_eq!(
        create_job(job(0, 1), &mut db, 1),
        Submission::Rejected(Reply { status: 400, body: None })
    );
    assert_eq!(db.len(), 1);
}

#[test]
fn status_of_absent_id_is_bad_request() {
    let db = blank_db();
    assert_eq!(
        status_job(JobOptions { id: None }, &db),
        StatusReply { status: 400, body: None }
    );
}

#[test]
fn status_of_negative_id_is_bad_request() {
    let db = blank_db();
    assert_eq!(status_job(JobOptions { id: Some(-1) }, &db), StatusReply { status: 400, body: None });
    assert_eq!(
        status_job(JobOptions { id: Some(i32::MIN) }, &db),
        StatusReply { status: 400, body: None }
    );
}

#[test]
fn status_of_unknown_id_is_not_found() {
    let db = blank_db();
    assert_eq!(status_job(JobOptions { id: Some(0) }, &db), StatusReply { status: 404, body: None });
    assert_eq!(
        status_job(JobOptions { id: Some(i32::MAX) }, &db),
        StatusReply { status: 404, body: None }
    );
}

#[test]
fn status_of_known_id_is_the_stored_record() {
    let mut db = blank_db();
    let id = db.create_job(job(2, 500), 21).unwrap();
    let reply = status_job(JobOptions { id: Some(id) }, &db);
    assert_eq!(reply.status, 200);
    assert_eq!(reply.body, db.get(id));
    assert_eq!(
        reply.body,
        Some(JobModel {
            job: job(2, 500),
            state: JobState::Queued,
            finished_at: 0,
            started_at: 21,
            job_id: id,
            exec_output: String::new(),
        })
    );
}

#[test]
fn job_update_closes_the_job_as_succeeded() {
    let mut db = blank_db();
    let id = db.create_job(job(1, 1), 5).unwrap();
    let update = JobUpdate { job_id: id, exec_output: "done".to_string(), finished_at: 30 };
    assert_eq!(job_update(id, update, &mut db), 200);
    let record = db.get(id).unwrap();
    assert_eq!(record.state, JobState::Succeeded);
    assert_eq!(record.exec_output, "done");
    assert_eq!(record.finished_at, 30);
    assert_eq!(record.started_at, 5);
    assert!(record.finished());
}

#[test]
fn job_update_goes_by_the_id_of_the_path() {
    let mut db = JobRegistry::with_id_space(2).unwrap();
    let a = db.create_job(job(1, 1), 5).unwrap();
    let b = db.create_job(job(1, 1), 5).unwrap();
    let update = JobUpdate { job_id: b, exec_output: "for a".to_string(), finished_at: 30 };
    assert_eq!(job_update(a, update, &mut db), 200);
    assert_eq!(db.get(a).unwrap().state, JobState::Succeeded);
    assert_eq!(db.get(b).unwrap().state, JobState::Queued);
}

#[test]
fn job_update_of_unknown_id_is_not_found() {
    let mut db = blank_db();
    let update = JobUpdate { job_id: 3, exec_output: "x".to_string(), finished_at: 30 };
    assert_eq!(job_update(3, update, &mut db), 404);
    assert_eq!(db.len(), 0);
}

#[test]
fn job_update_without_finish_time_is_bad_request() {
    let mut db = blank_db();
    let id = db.create_job(job(1, 1), 5).unwrap();
    let update = JobUpdate { job_id: id, exec_output: "x".to_string(), finished_at: 0 };
    assert_eq!(job_update(id, update, &mut db), 400);
    assert_eq!(db.get(id).unwrap().state, JobState::Queued);
}

#[test]
fn job_update_of_unknown_id_without_finish_time_is_not_found() {
    let mut db = blank_db();
    let update = JobUpdate { job_id: 7, exec_output: "x".to_string(), finished_at: 0 };
    assert_eq!(job_update(7, update, &mut db), 404);
    assert_eq!(db.len(), 0);
    let id = db.create_job(job(1, 1), 5).unwrap();
    let other = if id == 0 { 1 } else { id - 1 };
    let update = JobUpdate { job_id: id, exec_output: "x".to_string(), finished_at: 0 };
    assert_eq!(job_update(other, update, &mut db), 404);
    assert_eq!(db.len(), 1);
    assert_eq!(db.get(id).unwrap().state, JobState::Queued);
}

#[test]
fn registration_stores_the_observed_address() {
    let mut index = blank_worker_index();
    let status = register_worker(worker("6.6.6.6", 4, 4000), &mut index, Some("10.1.2.3".to_string()));
    assert_eq!(status, 200);
    assert_eq!(index.snapshot(), vec![worker("10.1.2.3", 4, 4000)]);
    assert_eq!(index.get(&"6.6.6.6".to_string()), None);
}

#[test]
fn registration_without_observed_address_uses_loopback() {
    let mut index = blank_worker_index();
    assert_eq!(register_worker(worker("a", 1, 100), &mut index, None), 200);
    assert_eq!(register_worker(worker("b", 2, 200), &mut index, None), 200);
    assert_eq!(index.snapshot(), vec![worker("127.0.0.1", 2, 200)]);
}

#[test]
fn registering_same_address_twice_keeps_latest_capacities() {
    let mut index = blank_worker_index();
    register_worker(worker("x", 2, 1000), &mut index, Some("10.0.0.9".to_string()));
    register_worker(worker("y", 8, 8000), &mut index, Some("10.0.0.9".to_string()));
    assert_eq!(index.len(), 1);
    assert_eq!(index.snapshot(), vec![worker("10.0.0.9", 8, 8000)]);
}

#[test]
fn error_response_keeps_its_message() {
    let e = ErrorResponse::new("no such job".to_string());
    assert_eq!(e.message(), "no such job");
}
