//! How failures of the JavaScript engine are reported.

use vstd::prelude::*;
use vstd::string::*;

use crate::error::{ErrorView, FabelaError};
use crate::text::owned;

verus! {

/// How evaluating a script failed, in the terms the engine reports it.
#[derive(Debug)]
pub enum JsFailure {
    /// The script threw an `Error` object: its `name` property when that is a
    /// string, its message and its stack trace, each when present.
    Thrown { name: Option<String>, message: Option<String>, stack: Option<String> },
    /// The script threw a value that is not an `Error` object.
    ThrownValue,
    /// The engine failed for another reason, described by the given text.
    Internal(String),
}

/// Why the engine could not be started.
#[derive(Debug)]
pub enum SetupFailure {
    /// Creating the engine runtime failed.
    Runtime(String),
    /// Creating the evaluation context failed.
    Context(String),
}

/// The text of an optional string, or `default` when it is absent.
pub open spec fn text_or(s: Option<String>, default: Seq<char>) -> Seq<char> {
    match s {
        Some(t) => t@,
        None => default,
    }
}

/// The message reported for an exception thrown by a script.
pub open spec fn exception_text(name: Option<String>, message: Option<String>, stack: Option<String>) -> Seq<char> {
    let head = text_or(name, "Error"@) + ": "@ + text_or(message, "Unknown error"@);
    let trace = text_or(stack, Seq::empty());
    if trace.len() == 0 {
        head
    } else {
        head + "\n"@ + trace
    }
}

/// The message reported for a failed evaluation.
pub open spec fn failure_text(failure: JsFailure) -> Seq<char> {
    match failure {
        JsFailure::Thrown { name, message, stack } => exception_text(name, message, stack),
        JsFailure::ThrownValue => "Unknown JavaScript exception"@,
        JsFailure::Internal(d) => "Internal JS error: "@ + d@,
    }
}

/// The message reported when the engine cannot start.
pub open spec fn setup_text(failure: SetupFailure) -> Seq<char> {
    match failure {
        SetupFailure::Runtime(d) => "QuickJS runtime init error: "@ + d@,
        SetupFailure::Context(d) => "QuickJS context creation error: "@ + d@,
    }
}

/// The message reported when a pending job (a promise reaction) fails.
pub open spec fn job_text(detail: Seq<char>) -> Seq<char> {
    "Error executing pending job: "@ + detail
}

/// A string, or the given default when it is absent.
fn or_default(s: Option<String>, default: &str) -> (res: String)
    ensures
        res@ == text_or(s, default@),
{
    match s {
        Some(t) => t,
        None => owned(default),
    }
}

/// The error reported for a failed evaluation: the exception's name and
/// message (defaulting to `Error` and `Unknown error`), then its stack trace
/// on a new line when there is one.
pub fn format_exception(failure: JsFailure) -> (res: FabelaError)
    ensures
        res@ == ErrorView::Vm(failure_text(failure)),
{
    match failure {
        JsFailure::Thrown { name, message, stack } => {
            let mut text = or_default(name, "Error");
            text.append(": ");
            let msg = or_default(message, "Unknown error");
            text.append(msg.as_str());
            let trace = or_default(stack, "");
            assert(""@ =~= Seq::<char>::empty()) by {
                reveal_strlit("");
            }
            if trace.as_str().unicode_len() != 0 {
                text.append("\n");
                text.append(trace.as_str());
            }
            FabelaError::Vm(text)
        },
        JsFailure::ThrownValue => FabelaError::Vm(owned("Unknown JavaScript exception")),
        JsFailure::Internal(detail) => {
            let mut text = owned("Internal JS error: ");
            text.append(detail.as_str());
            FabelaError::Vm(text)
        },
    }
}

/// The error reported when the engine cannot start.
pub fn setup_error(failure: SetupFailure) -> (res: FabelaError)
    ensures
        res@ == ErrorView::Vm(setup_text(failure)),
{
    match failure {
        SetupFailure::Runtime(detail) => {
            let mut text = owned("QuickJS runtime init error: ");
            text.append(detail.as_str());
            FabelaError::Vm(text)
        },
        SetupFailure::Context(detail) => {
            let mut text = owned("QuickJS context creation error: ");
            text.append(detail.as_str());
            FabelaError::Vm(text)
        },
    }
}

/// The error reported when a pending job fails.
pub fn job_error(detail: String) -> (res: FabelaError)
    ensures
        res@ == ErrorView::Vm(job_text(detail@)),
{
    let mut text = owned("Error executing pending job: ");
    text.append(detail.as_str());
    FabelaError::Vm(text)
}

} // verus!

verus! {

/// An exception is reported as its name, `": "`, its message, and, when it
/// has a non-empty stack trace, a newline and that trace; a missing name
/// reads `Error` and a missing message `Unknown error`.
pub proof fn lemma_exception_text(name: String, message: String, stack: String)
    ensures
        exception_text(Some(name), Some(message), None) == name@ + ": "@ + message@,
        stack@.len() == 0 ==> exception_text(Some(name), Some(message), Some(stack)) == name@ + ": "@
            + message@,
        stack@.len() > 0 ==> exception_text(Some(name), Some(message), Some(stack)) == name@ + ": "@
            + message@ + "\n"@ + stack@,
        exception_text(None, Some(message), None) == "Error"@ + ": "@ + message@,
        exception_text(Some(name), None, None) == name@ + ": "@ + "Unknown error"@,
{
    reveal_strlit("");
}

/// Each failure of the engine is reported behind its own fixed prefix,
/// followed by the engine's description unchanged.
pub proof fn lemma_failure_prefixes(detail: String)
    ensures
        failure_text(JsFailure::Internal(detail)) == "Internal JS error: "@ + detail@,
        failure_text(JsFailure::ThrownValue) == "Unknown JavaScript exception"@,
        setup_text(SetupFailure::Runtime(detail)) == "QuickJS runtime init error: "@ + detail@,
        setup_text(SetupFailure::Context(detail)) == "QuickJS context creation error: "@ + detail@,
        job_text(detail@) == "Error executing pending job: "@ + detail@,
{
}

} // verus!
