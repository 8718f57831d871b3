//! Which request goes to which handler. A request is known by its method
//! and by the bytes of its path, without the query. A path names a route
//! with or without one closing slash.

use vstd::prelude::*;
use crate::text::{ascii, parse_decimal, parse_i32};

verus! {

/// The method of a request, as far as routing looks at it.
#[derive(Clone, Copy, Debug, PartialEq, Eq, Structural)]
pub enum Method {
    Get,
    Post,
    Other,
}

/// The routes of the coordinator.
#[derive(Clone, Copy, Debug, PartialEq, Eq, Structural)]
pub enum Route {
    /// `POST /new_job`
    NewJob,
    /// `GET /job_status`
    JobStatus,
    /// `POST /job_update/<id>`, with the id
    JobUpdate(i32),
    /// `POST /register_worker`
    RegisterWorker,
}

/// `path` is a slash, then `name`, then at most one more slash.
pub open spec fn names(path: Seq<u8>, name: Seq<char>) -> bool {
    path == seq![47u8] + ascii(name) || path == seq![47u8] + ascii(name) + seq![47u8]
}

/// The id that a path of the form `/job_update/<id>` carries, with or
/// without one closing slash, where `<id>` is a 32-bit integer in decimal.
pub open spec fn update_id(path: Seq<u8>) -> Option<i32> {
    let prefix = seq![47u8] + ascii("job_update"@) + seq![47u8];
    if path.len() >= prefix.len() && path.subrange(0, prefix.len() as int) == prefix {
        let rest = path.subrange(prefix.len() as int, path.len() as int);
        if rest.len() > 0 && rest.last() == 47u8 {
            parse_decimal(rest.drop_last())
        } else {
            parse_decimal(rest)
        }
    } else {
        None
    }
}

/// The route of a request to the coordinator, if it has one.
pub open spec fn route_of(method: Method, path: Seq<u8>) -> Option<Route> {
    if method == Method::Post && names(path, "new_job"@) {
        Some(Route::NewJob)
    } else if method == Method::Get && names(path, "job_status"@) {
        Some(Route::JobStatus)
    } else if method == Method::Post && update_id(path) is Some {
        Some(Route::JobUpdate(update_id(path).unwrap()))
    } else if method == Method::Post && names(path, "register_worker"@) {
        Some(Route::RegisterWorker)
    } else {
        None
    }
}

/// Whether `path` holds `part` from place `at` on.
fn holds_at(path: &[u8], at: usize, part: &[u8]) -> (hit: bool)
    ensures
        hit == (at + part.len() <= path.len() && path@.subrange(
            at as int,
            at + part.len() as int,
        ) == part@),
{
    if at > path.len() || part.len() > path.len() - at {
        return false;
    }
    let mut i: usize = 0;
    while i < part.len()
        invariant
            i <= part.len(),
            at + part.len() <= path.len(),
            forall|k: int| 0 <= k < i ==> path[at + k] == part[k],
        decreases part.len() - i,
    {
        if path[at + i] != part[i] {
            assert(path@.subrange(at as int, at + part.len() as int)[i as int] != part@[i as int]);
            return false;
        }
        i += 1;
    }
    assert(path@.subrange(at as int, at + part.len() as int) =~= part@);
    true
}

/// Whether `path` is a slash, then `name`, then at most one more slash.
fn names_route(path: &[u8], name: &str) -> (hit: bool)
    requires
        vstd::string::is_ascii(name),
    ensures
        hit == names(path@, name@),
{
    broadcast use vstd::string::is_ascii_spec_bytes;

    let part = name.as_bytes();
    assert(part@ =~= ascii(name@));
    let n = part.len();
    let ghost bare = seq![47u8] + ascii(name@);
    let ghost closed = seq![47u8] + ascii(name@) + seq![47u8];
    if path.len() == 0 || path[0] != 47 {
        assert(bare[0] == 47u8 && closed[0] == 47u8);
        return false;
    }
    if !holds_at(path, 1, part) {
        proof {
            if path@ == bare || path@ == closed {
                assert(path@.subrange(1, 1 + n) =~= part@);
            }
        }
        return false;
    }
    if path.len() == n + 1 {
        assert(path@ =~= bare);
        true
    } else if path.len() == n + 2 && path[n + 1] == 47 {
        assert(path@ =~= closed);
        true
    } else {
        proof {
            if path@ == closed {
                assert(closed[n + 1] == 47u8);
            }
        }
        false
    }
}

/// Whether the request is a submission: `POST /new_job`.
pub fn job_create(method: Method, path: &[u8]) -> (hit: bool)
    ensures
        hit == (method == Method::Post && names(path@, "new_job"@)),
{
    proof {
        reveal_strlit("new_job");
    }
    method == Method::Post && names_route(path, "new_job")
}

/// Whether the request is a status query: `GET /job_status`.
pub fn job_status(method: Method, path: &[u8]) -> (hit: bool)
    ensures
        hit == (method == Method::Get && names(path@, "job_status"@)),
{
    proof {
        reveal_strlit("job_status");
    }
    method == Method::Get && names_route(path, "job_status")
}

/// The id of the job that the request reports on, where the request is a
/// completion report: `POST /job_update/<id>`.
pub fn job_update(method: Method, path: &[u8]) -> (id: Option<i32>)
    ensures
        id == (if method == Method::Post {
            update_id(path@)
        } else {
            None
        }),
{
    broadcast use vstd::string::is_ascii_spec_bytes;

    if method != Method::Post {
        return None;
    }
    proof {
        reveal_strlit("job_update");
    }
    assert(vstd::string::is_ascii("job_update"));
    let name = "job_update".as_bytes();
    assert(name@ =~= ascii("job_update"@));
    let n = name.len();
    let ghost prefix = seq![47u8] + ascii("job_update"@) + seq![47u8];
    if path.len() < n + 2 || path[0] != 47 || path[n + 1] != 47 || !holds_at(path, 1, name) {
        proof {
            if path.len() >= prefix.len() && path@.subrange(0, prefix.len() as int) == prefix {
                assert(path@.subrange(0, prefix.len() as int)[0] == 47u8);
                assert(path@.subrange(0, prefix.len() as int)[n + 1] == 47u8);
                assert(path@.subrange(1, 1 + n) =~= prefix.subrange(1, 1 + n));
                assert(prefix.subrange(1, 1 + n) =~= name@);
            }
        }
        return None;
    }
    assert(path@.subrange(0, prefix.len() as int) =~= prefix);
    let start = n + 2;
    let end = if path.len() > start && path[path.len() - 1] == 47 {
        path.len() - 1
    } else {
        path.len()
    };
    let segment = vstd::slice::slice_subrange(path, start, end);
    proof {
        let rest = path@.subrange(prefix.len() as int, path.len() as int);
        if end < path.len() {
            assert(segment@ =~= rest.drop_last());
        } else {
            assert(segment@ =~= rest);
        }
    }
    parse_i32(segment)
}

/// Whether the request is a registration: `POST /register_worker`.
pub fn register_worker(method: Method, path: &[u8]) -> (hit: bool)
    ensures
        hit == (method == Method::Post && names(path@, "register_worker"@)),
{
    proof {
        reveal_strlit("register_worker");
    }
    method == Method::Post && names_route(path, "register_worker")
}

/// The route of a request to the coordinator, if it has one.
pub fn jobs(method: Method, path: &[u8]) -> (route: Option<Route>)
    ensures
        route == route_of(method, path@),
{
    if job_create(method, path) {
        return Some(Route::NewJob);
    }
    if job_status(method, path) {
        return Some(Route::JobStatus);
    }
    if let Some(id) = job_update(method, path) {
        return Some(Route::JobUpdate(id));
    }
    if register_worker(method, path) {
        return Some(Route::RegisterWorker);
    }
    None
}

/// Whether the request asks a worker to run an artifact: `POST /accept_job`.
pub fn worker_accept_job(method: Method, path: &[u8]) -> (hit: bool)
    ensures
        hit == (method == Method::Post && names(path@, "accept_job"@)),
{
    proof {
        reveal_strlit("accept_job");
    }
    method == Method::Post && names_route(path, "accept_job")
}

/// Whether a worker serves the request. Its one route is `POST /accept_job`.
pub fn workers(method: Method, path: &[u8]) -> (hit: bool)
    ensures
        hit == (method == Method::Post && names(path@, "accept_job"@)),
{
    worker_accept_job(method, path)
}

} // verus!
