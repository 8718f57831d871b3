use distributed_wasm_runtime::jobs::{blank_db, JobChange, JobRegistry, DEFAULT_ID_SPACE};
use distributed_wasm_runtime::modules::{CoordinatorError, Job, JobModel, JobState, Worker};
use distributed_wasm_runtime::workers::{blank_worker_index, WorkerRegistry};

fn job(name: &str) -> Job {
    Job { rust_src: "fn main() {}".to_string(), cpus: 1, memory_mb: 1000, job_name: name.to_string() }
}

fn worker(addr: &str, cpu: i32, mem: i32) -> Worker {
    Worker {
        ip_addr: addr.to_string(),
        port: 3031,
        num_cpu: cpu,
        memory_capacity_mb: mem,
        is_busy: false,
        offline: false,
    }
}

#[test]
fn blank_db_is_empty() {
    let db = blank_db();
    assert_eq!(db.len(), 0);
    assert_eq!(db.id_space(), DEFAULT_ID_SPACE);
    assert_eq!(db.id_space(), 100_000_000);
    assert_eq!(db.get(0), None);
    assert!(!db.contains(0));
}

#[test]
fn created_job_is_queued_under_its_id() {
    let mut db = blank_db();
    let id = db.create_job(job("a"), 17).unwrap();
    assert!(0 <= id && id < DEFAULT_ID_SPACE);
    assert_eq!(db.len(), 1);
    assert_eq!(
        db.get(id),
        Some(JobModel {
            job: job("a"),
            state: JobState::Queued,
            finished_at: 0,
            started_at: 17,
            job_id: id,
            exec_output: String::new(),
        })
    );
    assert!(!db.get(id).unwrap().finished());
}

#[test]
fn many_submissions_get_distinct_ids() {
    let mut db = blank_db();
    let mut ids = Vec::new();
    for i in 0..200 {
        ids.push(db.create_job(job(&format!("j{}", i)), 1).unwrap());
    }
    let mut sorted = ids.clone();
    sorted.sort();
    sorted.dedup();
    assert_eq!(sorted.len(), 200);
    assert_eq!(db.len(), 200);
    for id in ids {
        assert_eq!(db.get(id).unwrap().job_id, id);
    }
}

#[test]
fn ids_are_drawn_at_random_from_the_id_space() {
    let mut db = blank_db();
    let ids: Vec<i32> = (0..3).map(|_| db.create_job(job("r"), 1).unwrap()).collect();
    assert_ne!(ids, vec![0, 1, 2]);
}

#[test]
fn small_id_space_forces_retries_and_fills_up() {
    let mut db = JobRegistry::with_id_space(5).unwrap();
    let mut ids = Vec::new();
    for _ in 0..5 {
        ids.push(db.create_job(job("s"), 1).unwrap());
    }
    ids.sort();
    assert_eq!(ids, vec![0, 1, 2, 3, 4]);
    assert_eq!(db.next_key(), None);
    assert_eq!(db.lowest_free(), None);
    assert_eq!(db.create_job(job("s"), 1), Err(CoordinatorError::RegistryFull));
    assert_eq!(db.len(), 5);
}

#[test]
fn id_space_of_one_gives_id_zero() {
    let mut db = JobRegistry::with_id_space(1).unwrap();
    assert_eq!(db.next_key(), Some(0));
    assert_eq!(db.create_job(job("z"), 1), Ok(0));
    assert_eq!(db.create_job(job("z"), 1), Err(CoordinatorError::RegistryFull));
}

#[test]
fn id_space_must_be_positive() {
    assert!(JobRegistry::with_id_space(0).is_none());
    assert!(JobRegistry::with_id_space(-3).is_none());
    assert!(JobRegistry::with_id_space(1).is_some());
}

#[test]
fn is_free_checks_range_and_occupancy() {
    let mut db = JobRegistry::with_id_space(2).unwrap();
    assert!(db.is_free(0));
    assert!(db.is_free(1));
    assert!(!db.is_free(2));
    assert!(!db.is_free(-1));
    let id = db.create_job(job("f"), 1).unwrap();
    assert!(!db.is_free(id));
    assert_eq!(db.lowest_free(), Some(1 - id));
}

#[test]
fn update_start_then_succeed() {
    let mut db = blank_db();
    let id = db.create_job(job("u"), 3).unwrap();
    let running = db.update(id, JobChange::Start).unwrap();
    assert_eq!(running.state, JobState::Running);
    assert_eq!(running.finished_at, 0);
    let done = db
        .update(id, JobChange::Succeed { output: "42\n".to_string(), finished_at: 9 })
        .unwrap();
    assert_eq!(done.state, JobState::Succeeded);
    assert_eq!(done.finished_at, 9);
    assert_eq!(done.started_at, 3);
    assert_eq!(done.exec_output, "42\n");
    assert_eq!(done.job, job("u"));
    assert_eq!(db.get(id), Some(done));
    assert!(db.get(id).unwrap().finished());
}

#[test]
fn update_fail_sets_failed_and_finish_time() {
    let mut db = blank_db();
    let id = db.create_job(job("u"), 3).unwrap();
    let failed = db.update(id, JobChange::Fail { output: "boom".to_string(), finished_at: 4 }).unwrap();
    assert_eq!(failed.state, JobState::Failed);
    assert_eq!(failed.finished_at, 4);
    assert_eq!(failed.exec_output, "boom");
}

#[test]
fn terminal_job_does_not_start_again() {
    let mut db = blank_db();
    let id = db.create_job(job("u"), 3).unwrap();
    db.update(id, JobChange::Fail { output: "boom".to_string(), finished_at: 4 }).unwrap();
    let after = db.update(id, JobChange::Start).unwrap();
    assert_eq!(after.state, JobState::Failed);
    assert_eq!(after.finished_at, 4);
}

#[test]
fn later_close_replaces_earlier_close() {
    let mut db = blank_db();
    let id = db.create_job(job("u"), 3).unwrap();
    db.update(id, JobChange::Fail { output: "boom".to_string(), finished_at: 4 }).unwrap();
    let after = db.update(id, JobChange::Succeed { output: "ok".to_string(), finished_at: 8 }).unwrap();
    assert_eq!(after.state, JobState::Succeeded);
    assert_eq!(after.finished_at, 8);
    assert_eq!(after.exec_output, "ok");
}

#[test]
fn update_of_unknown_id_is_not_found() {
    let mut db = blank_db();
    assert_eq!(db.update(5, JobChange::Start), Err(CoordinatorError::NotFound));
    assert_eq!(
        db.update(5, JobChange::Succeed { output: String::new(), finished_at: 1 }),
        Err(CoordinatorError::NotFound)
    );
    assert_eq!(db.len(), 0);
}

#[test]
fn close_without_finish_time_is_bad_request() {
    let mut db = blank_db();
    let id = db.create_job(job("u"), 3).unwrap();
    assert_eq!(
        db.update(id, JobChange::Succeed { output: "x".to_string(), finished_at: 0 }),
        Err(CoordinatorError::BadRequest)
    );
    assert_eq!(
        db.update(id, JobChange::Fail { output: "x".to_string(), finished_at: 0 }),
        Err(CoordinatorError::BadRequest)
    );
    assert_eq!(db.get(id).unwrap().state, JobState::Queued);
}

#[test]
fn unknown_id_is_not_found_whatever_the_change_holds() {
    let mut db = blank_db();
    assert_eq!(
        db.update(7, JobChange::Succeed { output: "x".to_string(), finished_at: 0 }),
        Err(CoordinatorError::NotFound)
    );
    assert_eq!(
        db.update(7, JobChange::Fail { output: "x".to_string(), finished_at: 0 }),
        Err(CoordinatorError::NotFound)
    );
    let id = db.create_job(job("u"), 3).unwrap();
    assert_eq!(
        db.update(id + 1, JobChange::Fail { output: "x".to_string(), finished_at: 0 }),
        Err(CoordinatorError::NotFound)
    );
    assert_eq!(db.len(), 1);
}

#[test]
fn blank_worker_index_is_empty() {
    let index = blank_worker_index();
    assert_eq!(index.len(), 0);
    assert_eq!(index.snapshot(), Vec::<Worker>::new());
    assert_eq!(index.get(&"10.0.0.1".to_string()), None);
}

#[test]
fn registering_twice_keeps_one_record_with_latest_values() {
    let mut index = WorkerRegistry::new();
    index.register(worker("10.0.0.1", 2, 1000));
    index.register(worker("10.0.0.1", 8, 8000));
    assert_eq!(index.len(), 1);
    assert_eq!(index.snapshot(), vec![worker("10.0.0.1", 8, 8000)]);
    assert_eq!(index.get(&"10.0.0.1".to_string()), Some(worker("10.0.0.1", 8, 8000)));
}

#[test]
fn registration_keeps_first_seen_order() {
    let mut index = WorkerRegistry::new();
    index.register(worker("a", 1, 1));
    index.register(worker("b", 2, 2));
    index.register(worker("c", 3, 3));
    index.register(worker("b", 9, 9));
    assert_eq!(index.snapshot(), vec![worker("a", 1, 1), worker("b", 9, 9), worker("c", 3, 3)]);
}

#[test]
fn set_busy_and_set_offline_touch_one_record() {
    let mut index = WorkerRegistry::new();
    index.register(worker("a", 1, 1));
    index.register(worker("b", 2, 2));
    assert!(index.set_busy(&"b".to_string(), true));
    assert!(index.set_offline(&"a".to_string(), true));
    let snap = index.snapshot();
    assert!(!snap[0].is_busy && snap[0].offline);
    assert!(snap[1].is_busy && !snap[1].offline);
    assert!(index.set_busy(&"b".to_string(), false));
    assert!(index.set_offline(&"a".to_string(), false));
    assert_eq!(index.snapshot(), vec![worker("a", 1, 1), worker("b", 2, 2)]);
}

#[test]
fn flags_of_unknown_address_change_nothing() {
    let mut index = WorkerRegistry::new();
    index.register(worker("a", 1, 1));
    assert!(!index.set_busy(&"zz".to_string(), true));
    assert!(!index.set_offline(&"zz".to_string(), true));
    assert_eq!(index.snapshot(), vec![worker("a", 1, 1)]);
}

#[test]
fn snapshot_is_a_copy() {
    let mut index = WorkerRegistry::new();
    index.register(worker("a", 1, 1));
    let snap = index.snapshot();
    index.set_busy(&"a".to_string(), true);
    index.register(worker("b", 2, 2));
    assert_eq!(snap, vec![worker("a", 1, 1)]);
}

#[test]
fn reregistration_clears_offline() {
    let mut index = WorkerRegistry::new();
    index.register(worker("a", 1, 1));
    index.set_offline(&"a".to_string(), true);
    index.set_busy(&"a".to_string(), true);
    index.register(worker("a", 1, 1));
    assert_eq!(index.snapshot(), vec![worker("a", 1, 1)]);
}
