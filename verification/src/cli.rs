//! What the command-line client decides before it sends a submission: the
//! name of the job.

use substring::Substring;
use vstd::prelude::*;
use vstd::string::StringExecFns;

verus! {

/// The characters of `text` from place `start` up to, not including, place
/// `end`, both cut down to the length of `text`; nothing where `end` is not
/// after `start`.
pub open spec fn char_range(text: Seq<char>, start: int, end: int) -> Seq<char> {
    if end <= start {
        Seq::empty()
    } else {
        let from = if start < text.len() {
            start
        } else {
            text.len() as int
        };
        let to = if end < text.len() {
            end
        } else {
            text.len() as int
        };
        text.subrange(from, to)
    }
}

/// The name of a job whose source was read from `source_path`, where the
/// user gave none: as many characters from the start of the path as the path
/// has bytes, less two.
pub open spec fn default_job_name(source_path: &str) -> Seq<char> {
    char_range(source_path@, 0, source_path.len() - 2)
}

/// `substring::Substring::substring` on `str`: the slice of `text` between
/// two character places. The crate cuts both places down to the length of
/// the text and gives the empty slice where the end is not after the start;
/// it does not panic.
#[verifier::external_body]
fn substring<'a>(text: &'a str, start: usize, end: usize) -> (part: &'a str)
    ensures
        part@ == char_range(text@, start as int, end as int),
{
    text.substring(start, end)
}

/// The name under which a job is submitted: the name that the user gave,
/// else the default for the path of the source. Where no name is given,
/// the path holds two bytes or more.
pub fn job_name(given: Option<String>, source_path: &str) -> (name: String)
    requires
        given is None ==> source_path.len() >= 2,
    ensures
        name@ == (match given {
            Some(text) => text@,
            None => default_job_name(source_path),
        }),
{
    match given {
        Some(text) => text,
        None => String::from_str(substring(source_path, 0, source_path.len() - 2)),
    }
}

} // verus!
