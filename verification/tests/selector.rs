use distributed_wasm_runtime::modules::Worker;
use distributed_wasm_runtime::selector::{doubled_cost_of, match_worker, select_worker};

fn worker(addr: &str, cpu: i32, mem: i32, busy: bool, offline: bool) -> Worker {
    Worker {
        ip_addr: addr.to_string(),
        port: 3031,
        num_cpu: cpu,
        memory_capacity_mb: mem,
        is_busy: busy,
        offline,
    }
}

#[test]
fn exact_fit_beats_larger_worker() {
    let pool = vec![worker("10.0.0.1", 2, 1000, false, false), worker("10.0.0.2", 8, 8000, false, false)];
    assert_eq!(match_worker(2, 1000, &pool), Some("10.0.0.1".to_string()));
    assert_eq!(doubled_cost_of(2, 1000, &pool[0]), 0);
    assert_eq!(doubled_cost_of(2, 1000, &pool[1]), 6 + 7000);
}

#[test]
fn exact_fit_wins_in_either_order() {
    let pool = vec![worker("10.0.0.2", 8, 8000, false, false), worker("10.0.0.1", 2, 1000, false, false)];
    assert_eq!(match_worker(2, 1000, &pool), Some("10.0.0.1".to_string()));
    assert_eq!(select_worker(2, 1000, &pool), Some(1));
}

#[test]
fn cost_counts_both_gaps_in_both_directions() {
    let w = worker("a", 4, 2000, false, false);
    assert_eq!(doubled_cost_of(1, 1000, &w), 3 + 1000);
    assert_eq!(doubled_cost_of(6, 2500, &w), 2 + 500);
    assert_eq!(doubled_cost_of(4, 2000, &w), 0);
}

#[test]
fn cost_does_not_overflow_at_the_extremes() {
    let w = worker("a", i32::MIN, i32::MIN, false, false);
    let span = i32::MAX as i64 - i32::MIN as i64;
    assert_eq!(doubled_cost_of(i32::MAX, i32::MAX, &w), 2 * span);
    let pool = vec![w, worker("b", i32::MAX, i32::MAX, false, false)];
    assert_eq!(match_worker(i32::MAX, i32::MAX, &pool), Some("b".to_string()));
}

#[test]
fn busy_and_offline_workers_are_never_selected() {
    let pool = vec![
        worker("busy", 2, 1000, true, false),
        worker("offline", 2, 1000, false, true),
        worker("both", 2, 1000, true, true),
        worker("far", 64, 64000, false, false),
    ];
    assert_eq!(match_worker(2, 1000, &pool), Some("far".to_string()));
}

#[test]
fn no_eligible_worker_gives_none() {
    let pool = vec![worker("busy", 2, 1000, true, false), worker("offline", 2, 1000, false, true)];
    assert_eq!(match_worker(2, 1000, &pool), None);
    assert_eq!(select_worker(2, 1000, &pool), None);
}

#[test]
fn empty_pool_gives_none() {
    let pool: Vec<Worker> = Vec::new();
    assert_eq!(match_worker(1, 1, &pool), None);
}

#[test]
fn a_single_ineligible_worker_is_not_selected() {
    let pool = vec![worker("only", 1, 1000, true, false)];
    assert_eq!(match_worker(1, 1000, &pool), None);
    let pool = vec![worker("only", 1, 1000, false, true)];
    assert_eq!(match_worker(1, 1000, &pool), None);
}

#[test]
fn ties_go_to_the_first_in_snapshot_order() {
    let pool = vec![
        worker("first", 4, 1000, false, false),
        worker("second", 2, 1002, false, false),
        worker("third", 3, 1001, false, false),
    ];
    assert_eq!(doubled_cost_of(3, 1001, &pool[0]), 2);
    assert_eq!(doubled_cost_of(3, 1001, &pool[1]), 2);
    assert_eq!(match_worker(3, 1001, &pool), Some("third".to_string()));
    assert_eq!(match_worker(3, 1000, &pool), Some("first".to_string()));
    let pool = vec![worker("x", 1, 10, false, false), worker("y", 1, 10, false, false)];
    assert_eq!(match_worker(5, 50, &pool), Some("x".to_string()));
}

#[test]
fn selection_is_repeatable() {
    let pool = vec![
        worker("a", 1, 500, false, false),
        worker("b", 2, 1000, false, false),
        worker("c", 4, 4000, true, false),
    ];
    let first = match_worker(3, 3000, &pool);
    for _ in 0..10 {
        assert_eq!(match_worker(3, 3000, &pool), first);
    }
    assert_eq!(first, Some("b".to_string()));
}
