use fabela::error::FabelaError;
use fabela::runner::{
    dispatch, embedded_outcome, run_embedded, run_file, try_run, Command, Dispatch, EmbeddedLaunch, TryRun,
};
use fabela::runtime::{RunAction, RunEvent, Script, ScriptRun};
use fabela::vm::{format_exception, job_error, setup_error, JsFailure, SetupFailure};

fn vm_text(e: FabelaError) -> String {
    match e {
        FabelaError::Vm(m) => m,
        other => panic!("expected a Vm error, got {other:?}"),
    }
}

#[test]
fn source_run_drains_pending_jobs() {
    let (mut run, action) = ScriptRun::new(Script::Source("1 + 1".to_string()));
    assert!(matches!(action, RunAction::CreateRuntime));
    match run.step(RunEvent::RuntimeCreated(Ok(()))) {
        RunAction::Evaluate(s) => assert_eq!(s, "1 + 1"),
        _ => panic!("expected evaluation"),
    }
    assert!(matches!(run.step(RunEvent::Evaluated(Ok(()))), RunAction::CheckPendingJob));
    assert!(matches!(run.step(RunEvent::JobPending(true)), RunAction::RunPendingJob));
    assert!(matches!(run.step(RunEvent::JobRan(Ok(()))), RunAction::CheckPendingJob));
    assert!(matches!(run.step(RunEvent::JobPending(true)), RunAction::RunPendingJob));
    assert!(matches!(run.step(RunEvent::JobRan(Ok(()))), RunAction::CheckPendingJob));
    assert!(!run.is_finished());
    assert!(matches!(run.step(RunEvent::JobPending(false)), RunAction::Finish(Ok(()))));
    assert!(run.is_finished());
}

#[test]
fn file_run_reads_then_evaluates() {
    let (mut run, _) = run_file("app.js".to_string());
    match run.step(RunEvent::RuntimeCreated(Ok(()))) {
        RunAction::ReadFile(p) => assert_eq!(p, "app.js"),
        _ => panic!("expected a file read"),
    }
    match run.step(RunEvent::FileRead(Ok("let x = 1;".to_string()))) {
        RunAction::Evaluate(s) => assert_eq!(s, "let x = 1;"),
        _ => panic!("expected evaluation"),
    }
    assert!(matches!(run.step(RunEvent::Evaluated(Ok(()))), RunAction::CheckPendingJob));
    assert!(matches!(run.step(RunEvent::JobPending(false)), RunAction::Finish(Ok(()))));
}

#[test]
fn unreadable_file_names_the_path() {
    let (mut run, _) = run_file("missing.js".to_string());
    run.step(RunEvent::RuntimeCreated(Ok(())));
    let err = std::io::Error::new(std::io::ErrorKind::NotFound, "no such file");
    match run.step(RunEvent::FileRead(Err(err))) {
        RunAction::Finish(Err(FabelaError::Io { context, source })) => {
            assert_eq!(context, "Failed to read file 'missing.js'");
            assert_eq!(source.kind(), std::io::ErrorKind::NotFound);
        }
        _ => panic!("expected an I/O error"),
    }
    assert!(run.is_finished());
}

#[test]
fn thrown_error_ends_the_run() {
    let (mut run, _) = ScriptRun::new(Script::Source("throw new TypeError('boom')".to_string()));
    run.step(RunEvent::RuntimeCreated(Ok(())));
    let failure = JsFailure::Thrown {
        name: Some("TypeError".to_string()),
        message: Some("boom".to_string()),
        stack: Some("    at <eval>:1".to_string()),
    };
    match run.step(RunEvent::Evaluated(Err(failure))) {
        RunAction::Finish(Err(e)) => assert_eq!(vm_text(e), "TypeError: boom\n    at <eval>:1"),
        _ => panic!("expected the exception"),
    }
}

#[test]
fn engine_setup_and_job_failures() {
    let (mut run, _) = ScriptRun::new(Script::Source(String::new()));
    match run.step(RunEvent::RuntimeCreated(Err(SetupFailure::Context("out of memory".to_string())))) {
        RunAction::Finish(Err(e)) => assert_eq!(vm_text(e), "QuickJS context creation error: out of memory"),
        _ => panic!("expected a setup failure"),
    }
    let (mut run, _) = ScriptRun::new(Script::Source(String::new()));
    run.step(RunEvent::RuntimeCreated(Ok(())));
    run.step(RunEvent::Evaluated(Ok(())));
    run.step(RunEvent::JobPending(true));
    match run.step(RunEvent::JobRan(Err("Uncaught RangeError".to_string()))) {
        RunAction::Finish(Err(e)) => assert_eq!(vm_text(e), "Error executing pending job: Uncaught RangeError"),
        _ => panic!("expected a job failure"),
    }
}

#[test]
fn exception_messages() {
    let plain = JsFailure::Thrown { name: None, message: None, stack: None };
    assert_eq!(vm_text(format_exception(plain)), "Error: Unknown error");
    let empty_stack = JsFailure::Thrown {
        name: Some("SyntaxError".to_string()),
        message: Some("unexpected token".to_string()),
        stack: Some(String::new()),
    };
    assert_eq!(vm_text(format_exception(empty_stack)), "SyntaxError: unexpected token");
    assert_eq!(vm_text(format_exception(JsFailure::ThrownValue)), "Unknown JavaScript exception");
    assert_eq!(
        vm_text(format_exception(JsFailure::Internal("stack overflow".to_string()))),
        "Internal JS error: stack overflow"
    );
    assert_eq!(
        vm_text(setup_error(SetupFailure::Runtime("no memory".to_string()))),
        "QuickJS runtime init error: no memory"
    );
    assert_eq!(vm_text(job_error("x".to_string())), "Error executing pending job: x");
}

#[test]
fn embedded_script_decisions() {
    assert!(matches!(run_embedded(Ok(None)), EmbeddedLaunch::Done(Ok(false))));
    assert!(matches!(
        run_embedded(Err(FabelaError::Runtime("x".to_string()))),
        EmbeddedLaunch::Done(Err(FabelaError::Runtime(_)))
    ));
    match run_embedded(Ok(Some("print()".to_string()))) {
        EmbeddedLaunch::Run(mut run, RunAction::CreateRuntime) => match run.step(RunEvent::RuntimeCreated(Ok(()))) {
            RunAction::Evaluate(s) => assert_eq!(s, "print()"),
            _ => panic!("expected evaluation"),
        },
        _ => panic!("expected a run"),
    }
    assert!(matches!(embedded_outcome(Ok(())), Ok(true)));
    assert!(matches!(embedded_outcome(Err(FabelaError::Vm("x".to_string()))), Err(FabelaError::Vm(_))));
}

#[test]
fn command_line_decisions() {
    assert!(matches!(try_run(Ok(true)), TryRun::Done(Ok(()))));
    assert!(matches!(try_run(Ok(false)), TryRun::ParseCli));
    assert!(matches!(try_run(Err(FabelaError::Compile("c".to_string()))), TryRun::Done(Err(_))));
    assert!(matches!(dispatch::<String>(None), Dispatch::Help));
    match dispatch(Some(Command::Run { file: "a.js".to_string() })) {
        Dispatch::Run(f) => assert_eq!(f, "a.js"),
        _ => panic!("expected run"),
    }
    match dispatch(Some(Command::Build { file: "a.js".to_string(), output: Some("out".to_string()) })) {
        Dispatch::Build { file, output } => {
            assert_eq!(file, "a.js");
            assert_eq!(output.as_deref(), Some("out"));
        }
        _ => panic!("expected build"),
    }
}
