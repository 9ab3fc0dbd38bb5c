use vstd::prelude::*;

use crate::error::AdapterError;
use crate::request::{request_problem, AgentExecutionRequest};
use crate::session::{
    outcome_texts, pipeline, result_view, AgentExecutionOutput, ExecutionSession, Step, StepView,
};

verus! {

/// The collaborator through which the adapter reaches the outside world: the
/// engine's subcommands, and the receipt file that the engine writes.
pub trait CommandRunner {
    /// Runs the engine with `args`, the first of which names the subcommand.
    /// Hands back what it printed, or a diagnostic when it could not be
    /// started or ended abnormally.
    fn run(&self, args: &Vec<String>) -> Result<String, String>;

    /// Reads the file at `path` in full, or says why it could not.
    fn read_file(&self, path: &String) -> Result<String, String>;
}

/// Verifies a bundle, runs it, and reads back its receipt, stopping at the
/// first step that fails.
pub struct ProvenactExecutionAdapter<R> {
    runner: R,
}

impl<R: CommandRunner> ProvenactExecutionAdapter<R> {
    pub fn with_runner(runner: R) -> (r: Self)
        ensures
            r.runner() == runner,
    {
        ProvenactExecutionAdapter { runner }
    }

    pub closed spec fn runner(&self) -> R {
        self.runner
    }

    /// Validates the request, runs `verify`, then `run`, then parses the
    /// receipt file. The result is what the session gives for the outcomes
    /// of the steps it reached; a refused request ends before any command.
    pub fn verify_execute_parse(&self, req: AgentExecutionRequest) -> (r: Result<
        AgentExecutionOutput,
        AdapterError,
    >)
        ensures
            exists|
                verify_out: Result<Seq<char>, Seq<char>>,
                run_out: Result<Seq<char>, Seq<char>>,
                read: Result<Seq<char>, Seq<char>>,
            |
                #[trigger] pipeline(req, verify_out, run_out, read) == StepView::Finished(
                    result_view(r),
                ),
            request_problem(req) matches Some((field, reason)) ==> r matches Err(e) && e@
                == crate::error::Failure::Invalid(field, reason),
            r is Ok ==> request_problem(req) is None,
    {
        let ghost none: Result<Seq<char>, Seq<char>> = Err(seq![]);
        let (mut session, step) = ExecutionSession::start(req);
        let args = match step {
            Step::RunCommand(args) => args,
            Step::Finished(r) => {
                assert(pipeline(req, none, none, none) == StepView::Finished(result_view(r)));
                return r;
            },
            Step::ReadReceipt(_) => {
                proof {
                    assert(false);
                }
                return Err(AdapterError::ParseFailure { detail: String::new() });
            },
        };
        let verify_out = self.runner.run(&args);
        let ghost v = outcome_texts(verify_out);
        let step = session.on_command(verify_out);
        let args = match step {
            Step::RunCommand(args) => args,
            Step::Finished(r) => {
                assert(pipeline(req, v, none, none) == StepView::Finished(result_view(r)));
                return r;
            },
            Step::ReadReceipt(_) => {
                proof {
                    assert(false);
                }
                return Err(AdapterError::ParseFailure { detail: String::new() });
            },
        };
        let run_out = self.runner.run(&args);
        let ghost e = outcome_texts(run_out);
        let step = session.on_command(run_out);
        let path = match step {
            Step::ReadReceipt(path) => path,
            Step::Finished(r) => {
                assert(pipeline(req, v, e, none) == StepView::Finished(result_view(r)));
                return r;
            },
            Step::RunCommand(_) => {
                proof {
                    assert(false);
                }
                return Err(AdapterError::ParseFailure { detail: String::new() });
            },
        };
        let read = self.runner.read_file(&path);
        let ghost t = outcome_texts(read);
        match session.on_receipt(read) {
            Step::Finished(r) => {
                assert(pipeline(req, v, e, t) == StepView::Finished(result_view(r)));
                r
            },
            _ => {
                proof {
                    assert(false);
                }
                Err(AdapterError::ParseFailure { detail: String::new() })
            },
        }
    }
}

} // verus!
