//! Running one script: start the engine, read the script when it is a file,
//! evaluate it, then run pending jobs until none is left.
//!
//! The engine and the file system are driven by the caller: a [`ScriptRun`]
//! asks for one operation at a time ([`RunAction`]) and decides what comes
//! next from its result ([`RunEvent`]). The first failure ends the run with
//! the error the user sees.

use vstd::prelude::*;
use vstd::string::*;

use crate::error::{ErrorView, FabelaError};
use crate::text::owned;
use crate::vm::{failure_text, format_exception, job_error, job_text, setup_error, setup_text, JsFailure, SetupFailure};

verus! {

/// A script to run.
#[derive(Debug)]
pub enum Script {
    /// Source text.
    Source(String),
    /// The path of a file holding the source text.
    File(String),
}

/// What a run asks its caller to do next.
#[derive(Debug)]
pub enum RunAction {
    /// Start the engine.
    CreateRuntime,
    /// Read the file at the given path.
    ReadFile(String),
    /// Evaluate the given source text.
    Evaluate(String),
    /// Tell whether the engine has a pending job.
    CheckPendingJob,
    /// Run one pending job.
    RunPendingJob,
    /// The run is over, with this outcome.
    Finish(Result<(), FabelaError>),
}

/// The result of the operation a run asked for.
#[derive(Debug)]
pub enum RunEvent {
    RuntimeCreated(Result<(), SetupFailure>),
    FileRead(Result<String, std::io::Error>),
    Evaluated(Result<(), JsFailure>),
    JobPending(bool),
    /// A job ran; a failure is described by the engine's text.
    JobRan(Result<(), String>),
}

/// Which result a run waits for.
#[derive(Clone, Copy, PartialEq, Eq, Structural, Debug)]
pub enum RunStage {
    CreatingRuntime,
    ReadingFile,
    Evaluating,
    CheckingJobs,
    RunningJob,
    Finished,
}

/// Mathematical form of a [`Script`].
pub enum ScriptView {
    Source(Seq<char>),
    File(Seq<char>),
}

/// Mathematical form of a [`ScriptRun`]: its stage and the script it still
/// holds (until the engine is up, and while its file is being read).
pub struct RunView {
    pub stage: RunStage,
    pub script: Option<ScriptView>,
}

/// Mathematical form of a [`RunAction`].
pub enum RunActionView {
    CreateRuntime,
    ReadFile(Seq<char>),
    Evaluate(Seq<char>),
    CheckPendingJob,
    RunPendingJob,
    Finish(Result<(), ErrorView>),
}

/// Mathematical form of a [`RunEvent`].
pub enum RunEventView {
    RuntimeCreated(Result<(), Seq<char>>),
    FileRead(Result<Seq<char>, std::io::Error>),
    Evaluated(Result<(), Seq<char>>),
    JobPending(bool),
    JobRan(Result<(), Seq<char>>),
}

impl View for Script {
    type V = ScriptView;

    open spec fn view(&self) -> ScriptView {
        match self {
            Script::Source(s) => ScriptView::Source(s@),
            Script::File(p) => ScriptView::File(p@),
        }
    }
}

impl View for RunAction {
    type V = RunActionView;

    open spec fn view(&self) -> RunActionView {
        match self {
            RunAction::CreateRuntime => RunActionView::CreateRuntime,
            RunAction::ReadFile(p) => RunActionView::ReadFile(p@),
            RunAction::Evaluate(s) => RunActionView::Evaluate(s@),
            RunAction::CheckPendingJob => RunActionView::CheckPendingJob,
            RunAction::RunPendingJob => RunActionView::RunPendingJob,
            RunAction::Finish(Ok(())) => RunActionView::Finish(Ok(())),
            RunAction::Finish(Err(e)) => RunActionView::Finish(Err(e@)),
        }
    }
}

/// A failed step is seen through the error text it produces.
impl View for RunEvent {
    type V = RunEventView;

    open spec fn view(&self) -> RunEventView {
        match self {
            RunEvent::RuntimeCreated(Ok(())) => RunEventView::RuntimeCreated(Ok(())),
            RunEvent::RuntimeCreated(Err(f)) => RunEventView::RuntimeCreated(Err(setup_text(*f))),
            RunEvent::FileRead(Ok(s)) => RunEventView::FileRead(Ok(s@)),
            RunEvent::FileRead(Err(e)) => RunEventView::FileRead(Err(*e)),
            RunEvent::Evaluated(Ok(())) => RunEventView::Evaluated(Ok(())),
            RunEvent::Evaluated(Err(f)) => RunEventView::Evaluated(Err(failure_text(*f))),
            RunEvent::JobPending(b) => RunEventView::JobPending(*b),
            RunEvent::JobRan(Ok(())) => RunEventView::JobRan(Ok(())),
            RunEvent::JobRan(Err(d)) => RunEventView::JobRan(Err(job_text(d@))),
        }
    }
}

/// The error context of a failed read of the script file at `path`.
pub open spec fn read_context(path: Seq<char>) -> Seq<char> {
    "Failed to read file '"@ + path + "'"@
}

/// Whether `event` answers what a run in `stage` asked for.
pub open spec fn answers(stage: RunStage, event: RunEventView) -> bool {
    match stage {
        RunStage::CreatingRuntime => event is RuntimeCreated,
        RunStage::ReadingFile => event is FileRead,
        RunStage::Evaluating => event is Evaluated,
        RunStage::CheckingJobs => event is JobPending,
        RunStage::RunningJob => event is JobRan,
        RunStage::Finished => false,
    }
}

/// The state of a run that has ended.
pub open spec fn finished() -> RunView {
    RunView { stage: RunStage::Finished, script: None }
}

/// The state in which a run checks for pending jobs.
pub open spec fn checking() -> RunView {
    RunView { stage: RunStage::CheckingJobs, script: None }
}

/// One step of a run: the next state and the next action.
pub open spec fn next(state: RunView, event: RunEventView) -> (RunView, RunActionView) {
    match event {
        RunEventView::RuntimeCreated(Err(text)) => (finished(), RunActionView::Finish(Err(ErrorView::Vm(text)))),
        RunEventView::RuntimeCreated(Ok(())) => match state.script {
            Some(ScriptView::File(path)) => (
                RunView { stage: RunStage::ReadingFile, script: state.script },
                RunActionView::ReadFile(path),
            ),
            Some(ScriptView::Source(source)) => (
                RunView { stage: RunStage::Evaluating, script: None },
                RunActionView::Evaluate(source),
            ),
            None => (finished(), RunActionView::Finish(Ok(()))),
        },
        RunEventView::FileRead(Err(e)) => (
            finished(),
            RunActionView::Finish(Err(ErrorView::Io {
                context: read_context(
                    match state.script {
                        Some(ScriptView::File(path)) => path,
                        _ => Seq::empty(),
                    },
                ),
                source: e,
            })),
        ),
        RunEventView::FileRead(Ok(source)) => (
            RunView { stage: RunStage::Evaluating, script: None },
            RunActionView::Evaluate(source),
        ),
        RunEventView::Evaluated(Err(text)) => (finished(), RunActionView::Finish(Err(ErrorView::Vm(text)))),
        RunEventView::Evaluated(Ok(())) => (checking(), RunActionView::CheckPendingJob),
        RunEventView::JobPending(true) => (
            RunView { stage: RunStage::RunningJob, script: None },
            RunActionView::RunPendingJob,
        ),
        RunEventView::JobPending(false) => (finished(), RunActionView::Finish(Ok(()))),
        RunEventView::JobRan(Err(text)) => (finished(), RunActionView::Finish(Err(ErrorView::Vm(text)))),
        RunEventView::JobRan(Ok(())) => (checking(), RunActionView::CheckPendingJob),
    }
}

/// The states a run can be in: the script is held until the engine is up,
/// and the file path while the file is read; otherwise nothing is held.
pub open spec fn well_formed(state: RunView) -> bool {
    match state.stage {
        RunStage::CreatingRuntime => state.script is Some,
        RunStage::ReadingFile => state.script matches Some(ScriptView::File(_)),
        _ => state.script is None,
    }
}

/// The state in which a new run of `script` starts.
pub open spec fn start(script: ScriptView) -> RunView {
    RunView { stage: RunStage::CreatingRuntime, script: Some(script) }
}

/// One run of one script.
#[derive(Debug)]
pub struct ScriptRun {
    stage: RunStage,
    script: Option<Script>,
}

impl View for ScriptRun {
    type V = RunView;

    closed spec fn view(&self) -> RunView {
        RunView {
            stage: self.stage,
            script: match self.script {
                Some(s) => Some(s@),
                None => None,
            },
        }
    }
}

impl ScriptRun {
    /// A run of `script`, and its first request: start the engine.
    pub fn new(script: Script) -> (res: (ScriptRun, RunAction))
        ensures
            res.0@ == start(script@),
            well_formed(res.0@),
            res.1@ == RunActionView::CreateRuntime,
    {
        (ScriptRun { stage: RunStage::CreatingRuntime, script: Some(script) }, RunAction::CreateRuntime)
    }

    /// Whether the run has ended.
    pub fn is_finished(&self) -> (res: bool)
        ensures
            res == (self@.stage == RunStage::Finished),
    {
        self.stage == RunStage::Finished
    }

    /// Hands the result of the last requested operation to the run and
    /// returns the next one.
    pub fn step(&mut self, event: RunEvent) -> (action: RunAction)
        requires
            well_formed(old(self)@),
            answers(old(self)@.stage, event@),
        ensures
            (final(self)@, action@) == next(old(self)@, event@),
            well_formed(final(self)@),
    {
        match event {
            RunEvent::RuntimeCreated(Err(f)) => {
                self.stage = RunStage::Finished;
                self.script = None;
                RunAction::Finish(Err(setup_error(f)))
            },
            RunEvent::RuntimeCreated(Ok(())) => {
                let script = self.script.take();
                match script {
                    Some(Script::File(path)) => {
                        let request = path.clone();
                        self.stage = RunStage::ReadingFile;
                        self.script = Some(Script::File(path));
                        RunAction::ReadFile(request)
                    },
                    Some(Script::Source(source)) => {
                        self.stage = RunStage::Evaluating;
                        RunAction::Evaluate(source)
                    },
                    None => {
                        self.stage = RunStage::Finished;
                        RunAction::Finish(Ok(()))
                    },
                }
            },
            RunEvent::FileRead(Err(source)) => {
                let script = self.script.take();
                let mut context = owned("Failed to read file '");
                match script {
                    Some(Script::File(path)) => {
                        context.append(path.as_str());
                    },
                    _ => {
                        proof {
                            assert(context@ =~= "Failed to read file '"@ + Seq::<char>::empty());
                        }
                    },
                }
                context.append("'");
                self.stage = RunStage::Finished;
                RunAction::Finish(Err(FabelaError::Io { context, source }))
            },
            RunEvent::FileRead(Ok(source)) => {
                self.stage = RunStage::Evaluating;
                self.script = None;
                RunAction::Evaluate(source)
            },
            RunEvent::Evaluated(Err(f)) => {
                self.stage = RunStage::Finished;
                self.script = None;
                RunAction::Finish(Err(format_exception(f)))
            },
            RunEvent::Evaluated(Ok(())) => {
                self.stage = RunStage::CheckingJobs;
                self.script = None;
                RunAction::CheckPendingJob
            },
            RunEvent::JobPending(pending) => {
                self.script = None;
                if pending {
                    self.stage = RunStage::RunningJob;
                    RunAction::RunPendingJob
                } else {
                    self.stage = RunStage::Finished;
                    RunAction::Finish(Ok(()))
                }
            },
            RunEvent::JobRan(Err(detail)) => {
                self.stage = RunStage::Finished;
                self.script = None;
                RunAction::Finish(Err(job_error(detail)))
            },
            RunEvent::JobRan(Ok(())) => {
                self.stage = RunStage::CheckingJobs;
                self.script = None;
                RunAction::CheckPendingJob
            },
        }
    }
}

/// Whether an event reports a failure.
pub open spec fn is_failure(event: RunEventView) -> bool {
    match event {
        RunEventView::RuntimeCreated(r) => r is Err,
        RunEventView::FileRead(r) => r is Err,
        RunEventView::Evaluated(r) => r is Err,
        RunEventView::JobRan(r) => r is Err,
        RunEventView::JobPending(_) => false,
    }
}

/// A run succeeds only once no job is pending.
///
/// The only step that ends a run successfully is the answer "no pending
/// job" to a check for pending jobs: a script's promise reactions are always
/// drained before its run reports success.
pub proof fn lemma_success_drains_jobs(state: RunView, event: RunEventView)
    requires
        well_formed(state),
        answers(state.stage, event),
        next(state, event).1 == RunActionView::Finish(Ok(())),
    ensures
        state.stage == RunStage::CheckingJobs,
        event == RunEventView::JobPending(false),
{
}

/// The first failure ends the run and is its outcome.
///
/// Whatever stage a run is in, a failed operation ends it, and the run
/// reports exactly the error made from that failure: the engine's text for
/// engine failures, and the read context with the I/O error for a script file
/// that cannot be read.
pub proof fn lemma_failure_ends_run(state: RunView, event: RunEventView)
    requires
        is_failure(event),
    ensures
        next(state, event).0 == finished(),
        next(state, event).1 matches RunActionView::Finish(Err(e)) && match event {
            RunEventView::RuntimeCreated(Err(t)) => e == ErrorView::Vm(t),
            RunEventView::Evaluated(Err(t)) => e == ErrorView::Vm(t),
            RunEventView::JobRan(Err(t)) => e == ErrorView::Vm(t),
            RunEventView::FileRead(Err(io)) => e is Io && e->Io_source == io,
            _ => false,
        },
{
}

} // verus!

verus! {

/// A script is evaluated exactly as given.
///
/// A file that was read is evaluated as read, whatever the state; a run of
/// source text evaluates that text once the engine is up; and a run of a
/// file first reads that very path.
pub proof fn lemma_scripts_evaluated_unchanged(state: RunView, text: Seq<char>, path: Seq<char>)
    ensures
        next(state, RunEventView::FileRead(Ok(text))).1 == RunActionView::Evaluate(text),
        next(start(ScriptView::Source(text)), RunEventView::RuntimeCreated(Ok(()))).1
            == RunActionView::Evaluate(text),
        next(start(ScriptView::File(path)), RunEventView::RuntimeCreated(Ok(()))).1
            == RunActionView::ReadFile(path),
{
}

/// After a successful evaluation, and after each job that ran, the run
/// checks for pending jobs; a pending job is run.
pub proof fn lemma_jobs_are_polled(state: RunView)
    ensures
        next(state, RunEventView::Evaluated(Ok(()))).1 == RunActionView::CheckPendingJob,
        next(state, RunEventView::JobRan(Ok(()))).1 == RunActionView::CheckPendingJob,
        next(state, RunEventView::JobPending(true)).1 == RunActionView::RunPendingJob,
        next(state, RunEventView::JobPending(false)).1 == RunActionView::Finish(Ok(())),
{
}

/// A file that cannot be read is reported with its path quoted after
/// "Failed to read file ".
pub proof fn lemma_read_failure_names_path(path: Seq<char>, e: std::io::Error)
    ensures
        next(
            RunView { stage: RunStage::ReadingFile, script: Some(ScriptView::File(path)) },
            RunEventView::FileRead(Err(e)),
        ).1 == RunActionView::Finish(Err(ErrorView::Io {
            context: "Failed to read file '"@ + path + "'"@,
            source: e,
        })),
{
}

} // verus!
