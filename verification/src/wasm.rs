//! Where a job's source and artifact are kept, how the compiler is called,
//! and how its result is read. Nothing here touches a file or starts a
//! process: the caller does, with the paths and arguments that these
//! functions give.

use vstd::prelude::*;
use vstd::string::StringExecFns;
use crate::dispatch::{CompileOutcome, CompileOutcomeView};

verus! {

/// The path of the source file of the job named `job_name`.
pub open spec fn rust_src_path_of(job_name: Seq<char>) -> Seq<char> {
    "/tmp/"@ + job_name + ".rs"@
}

/// The path of the artifact of the job named `job_name`.
pub open spec fn wasm_path_of(job_name: Seq<char>) -> Seq<char> {
    "/tmp/"@ + job_name + ".wasm"@
}

/// The arguments that make the compiler turn `rust_file` into the artifact
/// `wasm_file`.
pub open spec fn compile_args_of(rust_file: Seq<char>, wasm_file: Seq<char>) -> Seq<Seq<char>> {
    seq![rust_file, "-o"@, wasm_file, "--target"@, "wasm32-wasi"@]
}

/// The views of a list of texts, in order.
pub open spec fn text_views(texts: Seq<String>) -> Seq<Seq<char>> {
    texts.map_values(|t: String| t@)
}

/// The name of the compiler's program.
pub fn compiler() -> (program: &'static str)
    ensures
        program@ == "rustc"@,
{
    "rustc"
}

/// The path under which the source of the job named `job_name` is written.
pub fn rust_src_path(job_name: &str) -> (path: String)
    ensures
        path@ == rust_src_path_of(job_name@),
{
    let mut path = String::from_str("/tmp/");
    path.append(job_name);
    path.append(".rs");
    path
}

/// The path under which the compiler leaves the artifact of the job named
/// `job_name`.
pub fn wasm_path(job_name: &str) -> (path: String)
    ensures
        path@ == wasm_path_of(job_name@),
{
    let mut path = String::from_str("/tmp/");
    path.append(job_name);
    path.append(".wasm");
    path
}

/// The arguments with which the compiler is called to turn `rust_file` into
/// the artifact `wasm_file`.
pub fn compile_args(rust_file: &str, wasm_file: &str) -> (args: Vec<String>)
    ensures
        text_views(args@) == compile_args_of(rust_file@, wasm_file@),
{
    let mut args: Vec<String> = Vec::new();
    args.push(String::from_str(rust_file));
    args.push(String::from_str("-o"));
    args.push(String::from_str(wasm_file));
    args.push(String::from_str("--target"));
    args.push(String::from_str("wasm32-wasi"));
    assert(text_views(args@) =~= compile_args_of(rust_file@, wasm_file@));
    args
}

/// Reads the compiler's result: where it exited with success, the bytes of
/// the artifact; where it did not, what it wrote as its error text.
pub fn compile_outcome(success: bool, artifact: Vec<u8>, diagnostics: String) -> (outcome:
    CompileOutcome)
    ensures
        outcome@ == (if success {
            CompileOutcomeView::Artifact(artifact@)
        } else {
            CompileOutcomeView::Failed(diagnostics@)
        }),
{
    if success {
        CompileOutcome::Artifact(artifact)
    } else {
        CompileOutcome::Failed(diagnostics)
    }
}

} // verus!
