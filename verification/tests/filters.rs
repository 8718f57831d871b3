use distributed_wasm_runtime::filters::{
    job_create, job_status, job_update, jobs, register_worker, worker_accept_job, workers, Method,
    Route,
};
use distributed_wasm_runtime::text::parse_i32;

#[test]
fn coordinator_routes_are_recognised() {
    assert_eq!(jobs(Method::Post, b"/new_job"), Some(Route::NewJob));
    assert_eq!(jobs(Method::Get, b"/job_status"), Some(Route::JobStatus));
    assert_eq!(jobs(Method::Post, b"/job_update/17"), Some(Route::JobUpdate(17)));
    assert_eq!(jobs(Method::Post, b"/register_worker"), Some(Route::RegisterWorker));
}

#[test]
fn one_closing_slash_is_accepted() {
    assert_eq!(jobs(Method::Post, b"/new_job/"), Some(Route::NewJob));
    assert_eq!(jobs(Method::Get, b"/job_status/"), Some(Route::JobStatus));
    assert_eq!(jobs(Method::Post, b"/job_update/17/"), Some(Route::JobUpdate(17)));
    assert_eq!(jobs(Method::Post, b"/register_worker/"), Some(Route::RegisterWorker));
    assert_eq!(jobs(Method::Post, b"/new_job//"), None);
    assert_eq!(jobs(Method::Post, b"/job_update/17//"), None);
}

#[test]
fn wrong_method_has_no_route() {
    assert_eq!(jobs(Method::Get, b"/new_job"), None);
    assert_eq!(jobs(Method::Other, b"/new_job"), None);
    assert_eq!(jobs(Method::Post, b"/job_status"), None);
    assert_eq!(jobs(Method::Get, b"/job_update/17"), None);
    assert_eq!(jobs(Method::Get, b"/register_worker"), None);
    assert!(!worker_accept_job(Method::Get, b"/accept_job"));
}

#[test]
fn other_paths_have_no_route() {
    for path in [
        &b""[..],
        b"/",
        b"new_job",
        b"/new_jo",
        b"/new_jobs",
        b"/new_job/x",
        b"//new_job",
        b"/NEW_JOB",
        b"/job_update",
        b"/job_update/",
        b"/job_update//",
        b"/job_update/abc",
        b"/job_update/1/2",
        b"/job_update/1x",
        b"/accept_job",
    ] {
        assert_eq!(jobs(Method::Post, path), None, "{:?}", path);
        assert_eq!(jobs(Method::Get, path), None, "{:?}", path);
    }
}

#[test]
fn single_route_filters_agree_with_the_table() {
    assert!(job_create(Method::Post, b"/new_job"));
    assert!(!job_create(Method::Post, b"/job_status"));
    assert!(job_status(Method::Get, b"/job_status"));
    assert!(!job_status(Method::Get, b"/new_job"));
    assert!(register_worker(Method::Post, b"/register_worker"));
    assert!(!register_worker(Method::Post, b"/register_workers"));
    assert_eq!(job_update(Method::Post, b"/job_update/5"), Some(5));
    assert_eq!(job_update(Method::Get, b"/job_update/5"), None);
    assert_eq!(job_update(Method::Post, b"/job_updat/5"), None);
}

#[test]
fn update_id_is_read_as_a_signed_decimal() {
    assert_eq!(job_update(Method::Post, b"/job_update/0"), Some(0));
    assert_eq!(job_update(Method::Post, b"/job_update/-3"), Some(-3));
    assert_eq!(job_update(Method::Post, b"/job_update/+3"), Some(3));
    assert_eq!(job_update(Method::Post, b"/job_update/0007"), Some(7));
    assert_eq!(job_update(Method::Post, b"/job_update/2147483647"), Some(i32::MAX));
    assert_eq!(job_update(Method::Post, b"/job_update/-2147483648"), Some(i32::MIN));
    assert_eq!(job_update(Method::Post, b"/job_update/2147483648"), None);
    assert_eq!(job_update(Method::Post, b"/job_update/-2147483649"), None);
    assert_eq!(job_update(Method::Post, b"/job_update/99999999999999999999"), None);
    assert_eq!(job_update(Method::Post, b"/job_update/-"), None);
    assert_eq!(job_update(Method::Post, b"/job_update/+"), None);
    assert_eq!(job_update(Method::Post, b"/job_update/ 5"), None);
    assert_eq!(job_update(Method::Post, b"/job_update/5.0"), None);
}

#[test]
fn worker_routes_are_recognised() {
    assert!(worker_accept_job(Method::Post, b"/accept_job"));
    assert!(worker_accept_job(Method::Post, b"/accept_job/"));
    assert!(workers(Method::Post, b"/accept_job"));
    assert!(!workers(Method::Post, b"/new_job"));
    assert!(!workers(Method::Other, b"/accept_job"));
}

#[test]
fn parse_i32_agrees_with_the_standard_parser() {
    for text in [
        "0", "1", "-1", "+1", "10", "0010", "-0", "+0", "2147483647", "2147483648", "-2147483648",
        "-2147483649", "4294967296", "00000000000000000000000000000042", "", "-", "+", "--1",
        "+-1", "1-", "12a", "a12", " 12", "12 ", "1_000", "0x10", "١٢",
        "99999999999999999999999999999999999999",
    ] {
        assert_eq!(parse_i32(text.as_bytes()), text.parse::<i32>().ok(), "{:?}", text);
    }
}

#[test]
fn parse_i32_gives_exact_values() {
    assert_eq!(parse_i32(b"3031"), Some(3031));
    assert_eq!(parse_i32(b"-45"), Some(-45));
    assert_eq!(parse_i32(b"4 5"), None);
}
