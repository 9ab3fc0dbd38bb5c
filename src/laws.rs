use vstd::prelude::*;

use crate::error::Failure;
use crate::receipt::is_json_document;
use crate::request::{
    is_digest, is_white, path_problem, request_problem, AgentExecutionRequest, InvalidReason,
    RequestField,
};
use crate::session::{command_spec, pipeline, start_spec, OutputView, StepView};

verus! {

/// A request with an empty bundle path is refused as invalid at the first
/// step, and the call ends there whatever the commands would have done: no
/// command is ever asked for.
pub proof fn empty_bundle_is_refused_before_any_command(req: AgentExecutionRequest)
    requires
        req.bundle@.len() == 0,
    ensures
        start_spec(req).1 == StepView::Finished(
            Err(Failure::Invalid(RequestField::Bundle, InvalidReason::EmptyPath)),
        ),
        forall|
            verify_out: Result<Seq<char>, Seq<char>>,
            run_out: Result<Seq<char>, Seq<char>>,
            read: Result<Seq<char>, Seq<char>>,
        |
            #[trigger] pipeline(req, verify_out, run_out, read) == start_spec(req).1,
{
}

/// A bundle path with white space at either end is refused as invalid at the
/// first step, and no command is ever asked for.
pub proof fn padded_bundle_is_refused_before_any_command(req: AgentExecutionRequest)
    requires
        req.bundle@.len() > 0,
        is_white(req.bundle@[0]) || is_white(req.bundle@[req.bundle@.len() - 1]),
    ensures
        start_spec(req).1 == StepView::Finished(
            Err(Failure::Invalid(RequestField::Bundle, InvalidReason::BoundaryWhitespace)),
        ),
        forall|
            verify_out: Result<Seq<char>, Seq<char>>,
            run_out: Result<Seq<char>, Seq<char>>,
            read: Result<Seq<char>, Seq<char>>,
        |
            #[trigger] pipeline(req, verify_out, run_out, read) == start_spec(req).1,
{
}

/// A keys digest that does not have the shape `algo:hex` makes the request
/// invalid; no command is asked for. When the paths are all acceptable, the
/// refusal names the digest.
pub proof fn malformed_digest_is_refused(req: AgentExecutionRequest, digest: String)
    requires
        req.keys_digest == Some(digest),
        !is_digest(digest@),
    ensures
        start_spec(req).1 matches StepView::Finished(Err(Failure::Invalid(_, _))),
        forall|
            verify_out: Result<Seq<char>, Seq<char>>,
            run_out: Result<Seq<char>, Seq<char>>,
            read: Result<Seq<char>, Seq<char>>,
        |
            #[trigger] pipeline(req, verify_out, run_out, read) == start_spec(req).1,
        path_problem(req.bundle@) is None && path_problem(req.keys@) is None && path_problem(
            req.policy@,
        ) is None && path_problem(req.input@) is None && path_problem(req.receipt@) is None
            ==> start_spec(req).1 == StepView::Finished(
            Err(Failure::Invalid(RequestField::KeysDigest, InvalidReason::MalformedDigest)),
        ),
{
}

/// When the verify command fails, the call ends with a command failure that
/// names `verify`; the run command is never asked for.
pub proof fn verify_failure_stops_before_run(req: AgentExecutionRequest, diagnostic: Seq<char>)
    requires
        request_problem(req) is None,
    ensures
        command_spec(start_spec(req).0, Err(diagnostic)).1 == StepView::Finished(
            Err(Failure::Command("verify"@, diagnostic)),
        ),
        forall|run_out: Result<Seq<char>, Seq<char>>, read: Result<Seq<char>, Seq<char>>|
            #[trigger] pipeline(req, Err(diagnostic), run_out, read) == StepView::Finished(
                Err(Failure::Command("verify"@, diagnostic)),
            ),
{
}

/// When both commands succeed but the receipt file cannot be read, the call
/// ends with an I/O failure on the receipt path, never with an empty receipt.
pub proof fn unreadable_receipt_is_io_failure(
    req: AgentExecutionRequest,
    verify_out: Seq<char>,
    run_out: Seq<char>,
    diagnostic: Seq<char>,
)
    requires
        request_problem(req) is None,
    ensures
        pipeline(req, Ok(verify_out), Ok(run_out), Err(diagnostic)) == StepView::Finished(
            Err(Failure::Io(req.receipt@, diagnostic)),
        ),
{
}

/// When both commands succeed and the receipt is a structured document, the
/// call returns both commands' output and that receipt.
pub proof fn successful_steps_complete(
    req: AgentExecutionRequest,
    verify_out: Seq<char>,
    run_out: Seq<char>,
    text: Seq<char>,
)
    requires
        request_problem(req) is None,
        is_json_document(text),
    ensures
        pipeline(req, Ok(verify_out), Ok(run_out), Ok(text)) == StepView::Finished(
            Ok(OutputView { verify_stdout: verify_out, execute_stdout: run_out, receipt_text: text }),
        ),
{
}

} // verus!
