//! The worker's side of the execution endpoint: what it answers once the
//! sandbox has run an artifact. A failed run is an answer like any other;
//! it never takes the worker down.

use vstd::prelude::*;
use vstd::string::StringExecFns;
use vstd::utf8::{decode_utf8, valid_utf8};
use crate::modules::{WasmRunResult, STATUS_INTERNAL_SERVER_ERROR, STATUS_OK};

verus! {

/// What came of running one artifact in the sandbox.
#[derive(Debug, PartialEq, Eq)]
pub enum SandboxOutcome {
    /// The run came to its end; these are the bytes it wrote to its
    /// standard output.
    Captured(Vec<u8>),
    /// The sandbox could not be set up, or the run trapped or exited with a
    /// failure; this is the diagnostic text.
    Failed(String),
}

/// The outcome of a run as the contracts see it.
pub enum SandboxOutcomeView {
    Captured(Seq<u8>),
    Failed(Seq<char>),
}

impl View for SandboxOutcome {
    type V = SandboxOutcomeView;

    open spec fn view(&self) -> SandboxOutcomeView {
        match self {
            SandboxOutcome::Captured(bytes) => SandboxOutcomeView::Captured(bytes@),
            SandboxOutcome::Failed(text) => SandboxOutcomeView::Failed(text@),
        }
    }
}

/// How a run in the sandbox ended.
#[derive(Clone, Copy, Debug, PartialEq, Eq, Structural)]
pub enum RunEnd {
    /// The artifact's entry function returned.
    Returned,
    /// The artifact asked to exit with this code.
    Exited(i32),
    /// The sandbox could not be set up, or the artifact trapped.
    Broke,
}

impl RunEnd {
    /// A run came to its end when it returned or exited with code zero.
    pub open spec fn completed(self) -> bool {
        self == RunEnd::Returned || self == RunEnd::Exited(0)
    }
}

/// Reads the end of a run: the captured bytes where the run came to its
/// end, else the diagnostic text. An exit with a code other than zero is a
/// failure.
pub fn sandbox_outcome(end: RunEnd, captured: Vec<u8>, diagnostic: String) -> (outcome:
    SandboxOutcome)
    ensures
        outcome@ == (if end.completed() {
            SandboxOutcomeView::Captured(captured@)
        } else {
            SandboxOutcomeView::Failed(diagnostic@)
        }),
{
    let completed = match end {
        RunEnd::Returned => true,
        RunEnd::Exited(code) => code == 0,
        RunEnd::Broke => false,
    };
    if completed {
        SandboxOutcome::Captured(captured)
    } else {
        SandboxOutcome::Failed(diagnostic)
    }
}

/// The worker's answer to an execution request.
#[derive(Debug, PartialEq, Eq)]
pub struct WorkerReply {
    pub status: u16,
    pub body: WasmRunResult,
}

/// The diagnostic of a run whose output is not text.
pub open spec fn not_text_reason() -> Seq<char> {
    "the captured output is not valid UTF-8"@
}

/// The status of the worker's answer: success exactly when the run came to
/// its end and its output is text.
pub open spec fn reply_status_of(run: SandboxOutcomeView) -> u16 {
    match run {
        SandboxOutcomeView::Captured(bytes) => if valid_utf8(bytes) {
            STATUS_OK
        } else {
            STATUS_INTERNAL_SERVER_ERROR
        },
        SandboxOutcomeView::Failed(_) => STATUS_INTERNAL_SERVER_ERROR,
    }
}

/// The text of the worker's answer: the captured output, or the diagnostic.
pub open spec fn reply_output_of(run: SandboxOutcomeView) -> Seq<char> {
    match run {
        SandboxOutcomeView::Captured(bytes) => if valid_utf8(bytes) {
            decode_utf8(bytes)
        } else {
            not_text_reason()
        },
        SandboxOutcomeView::Failed(text) => text,
    }
}

/// `String::from_utf8` of the standard library: the text that `bytes`
/// encode, or `None` where they are not valid UTF-8.
#[verifier::external_body]
fn text_of(bytes: Vec<u8>) -> (text: Option<String>)
    ensures
        text is Some <==> valid_utf8(bytes@),
        text matches Some(s) ==> s@ == decode_utf8(bytes@),
{
    match String::from_utf8(bytes) {
        Ok(s) => Some(s),
        Err(_) => None,
    }
}

/// Answers an execution request once the sandbox has run the artifact: the
/// captured output as one text with status `STATUS_OK`, or the diagnostic
/// of the failure with status `STATUS_INTERNAL_SERVER_ERROR`.
pub fn handle_job_request(run: SandboxOutcome) -> (reply: WorkerReply)
    ensures
        reply.status == reply_status_of(run@),
        reply.body.output@ == reply_output_of(run@),
{
    match run {
        SandboxOutcome::Captured(bytes) => match text_of(bytes) {
            Some(output) => WorkerReply { status: STATUS_OK, body: WasmRunResult { output } },
            None => WorkerReply {
                status: STATUS_INTERNAL_SERVER_ERROR,
                body: WasmRunResult {
                    output: String::from_str("the captured output is not valid UTF-8"),
                },
            },
        },
        SandboxOutcome::Failed(output) => WorkerReply {
            status: STATUS_INTERNAL_SERVER_ERROR,
            body: WasmRunResult { output },
        },
    }
}

} // verus!
