use vstd::prelude::*;

use crate::args::{run_args, run_command, texts, verify_args, verify_command};
use crate::error::{AdapterError, Failure};
use crate::receipt::{is_json_document, Receipt};
use crate::request::{check_request, request_problem, AgentExecutionRequest};

verus! {

/// Where a session stands: waiting for the verify step, the run step, the
/// receipt, or finished.
#[derive(Clone, Copy, Debug, PartialEq, Eq, Structural)]
pub enum Stage {
    Verifying,
    Executing,
    Parsing,
    Done,
}

/// What a completed call hands back, as plain values.
pub struct OutputView {
    pub verify_stdout: Seq<char>,
    pub execute_stdout: Seq<char>,
    pub receipt_text: Seq<char>,
}

/// What the session asks for next, as plain values.
pub enum StepView {
    RunCommand(Seq<Seq<char>>),
    ReadReceipt(Seq<char>),
    Finished(Result<OutputView, Failure>),
}

/// The state of a session, as plain values.
pub struct SessionState {
    pub request: AgentExecutionRequest,
    pub stage: Stage,
    pub verify_stdout: Seq<char>,
    pub execute_stdout: Seq<char>,
}

/// The texts of an outcome of an outside call.
pub open spec fn outcome_texts(r: Result<String, String>) -> Result<Seq<char>, Seq<char>> {
    match r {
        Ok(s) => Ok(s@),
        Err(d) => Err(d@),
    }
}

/// The first step: a refused request finishes at once; a well-formed one
/// asks for the verify command.
pub open spec fn start_spec(req: AgentExecutionRequest) -> (SessionState, StepView) {
    let s = SessionState {
        request: req,
        stage: Stage::Verifying,
        verify_stdout: seq![],
        execute_stdout: seq![],
    };
    match request_problem(req) {
        Some((field, reason)) => (
            SessionState { stage: Stage::Done, ..s },
            StepView::Finished(Err(Failure::Invalid(field, reason))),
        ),
        None => (s, StepView::RunCommand(verify_command(req))),
    }
}

/// After a command ended: on success the next step, on failure the end, with
/// the name of the subcommand that failed and its diagnostic.
pub open spec fn command_spec(s: SessionState, out: Result<Seq<char>, Seq<char>>) -> (
    SessionState,
    StepView,
) {
    if s.stage is Verifying {
        match out {
            Ok(o) => (
                SessionState { stage: Stage::Executing, verify_stdout: o, ..s },
                StepView::RunCommand(run_command(s.request)),
            ),
            Err(d) => (
                SessionState { stage: Stage::Done, ..s },
                StepView::Finished(Err(Failure::Command("verify"@, d))),
            ),
        }
    } else {
        match out {
            Ok(o) => (
                SessionState { stage: Stage::Parsing, execute_stdout: o, ..s },
                StepView::ReadReceipt(s.request.receipt@),
            ),
            Err(d) => (
                SessionState { stage: Stage::Done, ..s },
                StepView::Finished(Err(Failure::Command("run"@, d))),
            ),
        }
    }
}

/// After the receipt file was read, or could not be: the end.
pub open spec fn receipt_spec(s: SessionState, read: Result<Seq<char>, Seq<char>>) -> (
    SessionState,
    StepView,
) {
    let done = SessionState { stage: Stage::Done, ..s };
    match read {
        Err(d) => (done, StepView::Finished(Err(Failure::Io(s.request.receipt@, d)))),
        Ok(t) => if is_json_document(t) {
            (
                done,
                StepView::Finished(
                    Ok(
                        OutputView {
                            verify_stdout: s.verify_stdout,
                            execute_stdout: s.execute_stdout,
                            receipt_text: t,
                        },
                    ),
                ),
            )
        } else {
            (done, StepView::Finished(Err(Failure::Parse)))
        },
    }
}

/// How a whole call ends, given what the verify command, the run command and
/// the reading of the receipt would give. An outcome is only consulted when
/// the session gets that far.
pub open spec fn pipeline(
    req: AgentExecutionRequest,
    verify_out: Result<Seq<char>, Seq<char>>,
    run_out: Result<Seq<char>, Seq<char>>,
    read: Result<Seq<char>, Seq<char>>,
) -> StepView {
    let (s0, a0) = start_spec(req);
    if s0.stage is Done {
        a0
    } else {
        let (s1, a1) = command_spec(s0, verify_out);
        if s1.stage is Done {
            a1
        } else {
            let (s2, a2) = command_spec(s1, run_out);
            if s2.stage is Done {
                a2
            } else {
                receipt_spec(s2, read).1
            }
        }
    }
}

/// The result of a completed call: both steps' output and the receipt.
#[derive(Debug)]
pub struct AgentExecutionOutput {
    pub verify_stdout: String,
    pub execute_stdout: String,
    pub receipt: Receipt,
}

impl View for AgentExecutionOutput {
    type V = OutputView;

    open spec fn view(&self) -> OutputView {
        OutputView {
            verify_stdout: self.verify_stdout@,
            execute_stdout: self.execute_stdout@,
            receipt_text: self.receipt.source(),
        }
    }
}

/// The view of the result of a call.
pub open spec fn result_view(r: Result<AgentExecutionOutput, AdapterError>) -> Result<
    OutputView,
    Failure,
> {
    match r {
        Ok(o) => Ok(o@),
        Err(e) => Err(e@),
    }
}

/// What a session asks for next.
#[derive(Debug)]
pub enum Step {
    /// Run the engine with these arguments and report how it ended.
    RunCommand(Vec<String>),
    /// Read the file at this path and report its text.
    ReadReceipt(String),
    /// The call is over.
    Finished(Result<AgentExecutionOutput, AdapterError>),
}

impl View for Step {
    type V = StepView;

    open spec fn view(&self) -> StepView {
        match self {
            Step::RunCommand(a) => StepView::RunCommand(texts(a@)),
            Step::ReadReceipt(p) => StepView::ReadReceipt(p@),
            Step::Finished(r) => StepView::Finished(result_view(*r)),
        }
    }
}

/// One call of the adapter, driven step by step: whoever holds it performs
/// each step it asks for and hands back the outcome.
pub struct ExecutionSession {
    request: AgentExecutionRequest,
    stage: Stage,
    verify_stdout: String,
    execute_stdout: String,
}

impl View for ExecutionSession {
    type V = SessionState;

    closed spec fn view(&self) -> SessionState {
        SessionState {
            request: self.request,
            stage: self.stage,
            verify_stdout: self.verify_stdout@,
            execute_stdout: self.execute_stdout@,
        }
    }
}

impl ExecutionSession {
    /// Checks the request and asks for the verify command, or finishes with
    /// the refusal.
    pub fn start(request: AgentExecutionRequest) -> (r: (ExecutionSession, Step))
        ensures
            r.0@ == start_spec(request).0,
            r.1@ == start_spec(request).1,
    {
        let problem = check_request(&request);
        match problem {
            Some((field, reason)) => {
                let s = ExecutionSession {
                    request,
                    stage: Stage::Done,
                    verify_stdout: String::new(),
                    execute_stdout: String::new(),
                };
                (s, Step::Finished(Err(AdapterError::InvalidRequest { field, reason })))
            },
            None => {
                let args = verify_args(&request);
                let s = ExecutionSession {
                    request,
                    stage: Stage::Verifying,
                    verify_stdout: String::new(),
                    execute_stdout: String::new(),
                };
                (s, Step::RunCommand(args))
            },
        }
    }

    pub fn stage(&self) -> (r: Stage)
        ensures
            r == self@.stage,
    {
        self.stage
    }

    /// Takes how the command that was asked for ended.
    pub fn on_command(&mut self, out: Result<String, String>) -> (r: Step)
        requires
            old(self)@.stage is Verifying || old(self)@.stage is Executing,
        ensures
            final(self)@ == command_spec(old(self)@, outcome_texts(out)).0,
            r@ == command_spec(old(self)@, outcome_texts(out)).1,
    {
        if self.stage == Stage::Verifying {
            match out {
                Ok(o) => {
                    self.stage = Stage::Executing;
                    self.verify_stdout = o;
                    Step::RunCommand(run_args(&self.request))
                },
                Err(detail) => {
                    self.stage = Stage::Done;
                    let subcommand = String::from_str("verify");
                    Step::Finished(Err(AdapterError::CommandFailure { subcommand, detail }))
                },
            }
        } else {
            match out {
                Ok(o) => {
                    self.stage = Stage::Parsing;
                    self.execute_stdout = o;
                    Step::ReadReceipt(self.request.receipt.clone())
                },
                Err(detail) => {
                    self.stage = Stage::Done;
                    let subcommand = String::from_str("run");
                    Step::Finished(Err(AdapterError::CommandFailure { subcommand, detail }))
                },
            }
        }
    }

    /// Takes the text of the receipt file, or why it could not be read.
    pub fn on_receipt(&mut self, read: Result<String, String>) -> (r: Step)
        requires
            old(self)@.stage is Parsing,
        ensures
            final(self)@ == receipt_spec(old(self)@, outcome_texts(read)).0,
            r@ == receipt_spec(old(self)@, outcome_texts(read)).1,
    {
        self.stage = Stage::Done;
        match read {
            Err(detail) => {
                let path = self.request.receipt.clone();
                Step::Finished(Err(AdapterError::IoFailure { path, detail }))
            },
            Ok(text) => match Receipt::parse(text.as_str()) {
                Ok(receipt) => Step::Finished(
                    Ok(
                        AgentExecutionOutput {
                            verify_stdout: self.verify_stdout.clone(),
                            execute_stdout: self.execute_stdout.clone(),
                            receipt,
                        },
                    ),
                ),
                Err(e) => Step::Finished(Err(e)),
            },
        }
    }
}

} // verus!
