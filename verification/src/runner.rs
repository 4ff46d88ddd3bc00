//! What the `fabela` command does: run the script embedded in its own
//! executable if there is one, otherwise follow the command line.

use vstd::prelude::*;

use crate::error::FabelaError;
use crate::runtime::{start, well_formed, RunAction, RunActionView, Script, ScriptRun, ScriptView};

verus! {

/// A subcommand of the command line; `P` is the type of a path.
#[derive(Debug)]
pub enum Command<P> {
    /// Run a JavaScript file.
    Run { file: P },
    /// Compile a JavaScript file to a standalone executable.
    Build { file: P, output: Option<P> },
}

/// What happens after looking for an embedded script.
#[derive(Debug)]
pub enum EmbeddedLaunch {
    /// Nothing to run: the outcome is known (`Ok(false)` when the executable
    /// carries no script).
    Done(Result<bool, FabelaError>),
    /// Run the embedded script.
    Run(ScriptRun, RunAction),
}

/// What `fabela` does after the embedded-script check.
#[derive(Debug)]
pub enum TryRun {
    /// Stop with this outcome.
    Done(Result<(), FabelaError>),
    /// No embedded script: parse the command line.
    ParseCli,
}

/// What the command line asks for.
#[derive(Debug)]
pub enum Dispatch<P> {
    /// Run the script file: its path, for [`run_file`].
    Run(P),
    /// Build a standalone executable.
    Build { file: P, output: Option<P> },
    /// No subcommand: print the usage.
    Help,
}

/// Decides, from the result of looking for a script embedded in the
/// executable, whether to run it: an error stops, no script means
/// `Ok(false)`, and a script is run from its source text.
pub fn run_embedded(extracted: Result<Option<String>, FabelaError>) -> (res: EmbeddedLaunch)
    ensures
        extracted matches Err(e) ==> (res matches EmbeddedLaunch::Done(Err(e2)) && e2 == e),
        extracted matches Ok(None) ==> (res matches EmbeddedLaunch::Done(Ok(false))),
        extracted matches Ok(Some(source)) ==> (res matches EmbeddedLaunch::Run(run, action)
            && run@ == start(ScriptView::Source(source@)) && well_formed(run@)
            && action@ == RunActionView::CreateRuntime),
{
    match extracted {
        Err(e) => EmbeddedLaunch::Done(Err(e)),
        Ok(None) => EmbeddedLaunch::Done(Ok(false)),
        Ok(Some(source)) => {
            let (run, action) = ScriptRun::new(Script::Source(source));
            EmbeddedLaunch::Run(run, action)
        },
    }
}

/// The outcome of an embedded script's run: `Ok(true)`, or its error.
pub fn embedded_outcome(finished: Result<(), FabelaError>) -> (res: Result<bool, FabelaError>)
    ensures
        finished is Ok ==> res == Ok::<bool, FabelaError>(true),
        finished matches Err(e) ==> (res matches Err(e2) && e2 == e),
{
    match finished {
        Ok(()) => Ok(true),
        Err(e) => Err(e),
    }
}

/// A run of the script in the file at `file`.
pub fn run_file(file: String) -> (res: (ScriptRun, RunAction))
    ensures
        res.0@ == start(ScriptView::File(file@)),
        well_formed(res.0@),
        res.1@ == RunActionView::CreateRuntime,
{
    ScriptRun::new(Script::File(file))
}

/// Decides what `fabela` does after the embedded-script check: an error
/// stops it, a script that ran ends it successfully, and otherwise the
/// command line is parsed.
pub fn try_run(embedded: Result<bool, FabelaError>) -> (res: TryRun)
    ensures
        embedded matches Err(e) ==> (res matches TryRun::Done(Err(e2)) && e2 == e),
        embedded == Ok::<bool, FabelaError>(true) ==> (res matches TryRun::Done(Ok(()))),
        embedded == Ok::<bool, FabelaError>(false) ==> res is ParseCli,
{
    match embedded {
        Err(e) => TryRun::Done(Err(e)),
        Ok(true) => TryRun::Done(Ok(())),
        Ok(false) => TryRun::ParseCli,
    }
}

/// Chooses the work a parsed command line asks for.
pub fn dispatch<P>(command: Option<Command<P>>) -> (res: Dispatch<P>)
    ensures
        command matches Some(Command::Run { file }) ==> (res matches Dispatch::Run(f) && f == file),
        command matches Some(Command::Build { file, output }) ==> (res matches Dispatch::Build {
            file: f,
            output: o,
        } && f == file && o == output),
        command is None ==> res is Help,
{
    match command {
        Some(Command::Run { file }) => Dispatch::Run(file),
        Some(Command::Build { file, output }) => Dispatch::Build { file, output },
        None => Dispatch::Help,
    }
}

} // verus!
